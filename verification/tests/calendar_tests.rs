use chrono::{Datelike, NaiveDate};
use hebrew_core::calendar::{DateConverter, HebrewDate, HebrewMonth, YearType};
use hebrew_core::solar::SolarDate;
use hebrew_core::CalendarError;

fn solar(year: i32, month: u32, day: u32) -> SolarDate {
    SolarDate::from_ymd_opt(year, month, day).unwrap()
}

#[test]
fn test_leap_year_calculation() {
    // Year 5784 is a leap year
    assert!(DateConverter::is_hebrew_leap_year(5784), "5784 should be leap");
    // Year 5783 is not a leap year
    assert!(!DateConverter::is_hebrew_leap_year(5783), "5783 should not be leap");
    // Year 5785 is not a leap year
    assert!(!DateConverter::is_hebrew_leap_year(5785), "5785 should not be leap");
    // Year 5786 is NOT a leap year
    assert!(!DateConverter::is_hebrew_leap_year(5786), "5786 should not be leap");
    // Year 5787 is a leap year
    assert!(DateConverter::is_hebrew_leap_year(5787), "5787 should be leap");

    // Verify known leap years in the 19-year cycle
    assert!(DateConverter::is_hebrew_leap_year(3), "Year 3 should be leap");
    assert!(DateConverter::is_hebrew_leap_year(6), "Year 6 should be leap");
    assert!(DateConverter::is_hebrew_leap_year(8), "Year 8 should be leap");
    assert!(DateConverter::is_hebrew_leap_year(19), "Year 19 should be leap");
    assert!(!DateConverter::is_hebrew_leap_year(1), "Year 1 should not be leap");
    assert!(!DateConverter::is_hebrew_leap_year(2), "Year 2 should not be leap");
}

#[test]
fn test_rosh_hashanah_5784() {
    // Rosh Hashanah 5784 should be September 16, 2023
    let rd = DateConverter::rosh_hashanah(5784);
    let greg = DateConverter::rd_to_gregorian(rd).unwrap();

    assert_eq!(greg.year(), 2023, "Year should be 2023, got {}", greg.year());
    assert_eq!(greg.month(), 9, "Month should be September, got {}", greg.month());
    assert_eq!(greg.day(), 16, "Day should be 16, got {}", greg.day());
}

#[test]
fn test_rosh_hashanah_5785() {
    // Rosh Hashanah 5785 should be October 3, 2024
    let rd = DateConverter::rosh_hashanah(5785);
    let greg = DateConverter::rd_to_gregorian(rd).unwrap();

    assert_eq!(greg.year(), 2024, "Year should be 2024, got {}", greg.year());
    assert_eq!(greg.month(), 10, "Month should be October, got {}", greg.month());
    assert_eq!(greg.day(), 3, "Day should be 3, got {}", greg.day());
}

#[test]
fn test_rosh_hashanah_multiple_years() {
    // Test multiple years to verify the algorithm is correct
    let test_cases = vec![
        (5783, 2022, 9, 26),  // Rosh Hashanah 5783
        (5784, 2023, 9, 16),  // Rosh Hashanah 5784
        (5785, 2024, 10, 3),  // Rosh Hashanah 5785
        (5786, 2025, 9, 23),  // Rosh Hashanah 5786
        (5787, 2026, 9, 12),  // Rosh Hashanah 5787
    ];

    for (hebrew_year, exp_year, exp_month, exp_day) in test_cases {
        let rd = DateConverter::rosh_hashanah(hebrew_year);
        let greg = DateConverter::rd_to_gregorian(rd).unwrap();

        assert_eq!(greg.year(), exp_year,
            "Year {}: expected {}-{:02}-{:02}, got {}-{:02}-{:02}",
            hebrew_year, exp_year, exp_month, exp_day,
            greg.year(), greg.month(), greg.day());
        assert_eq!(greg.month(), exp_month,
            "Year {}: month mismatch", hebrew_year);
        assert_eq!(greg.day(), exp_day,
            "Year {}: day mismatch", hebrew_year);
    }
}

#[test]
fn test_gregorian_to_hebrew() {
    // Test: Sept 16, 2023 should be Tishrei 1, 5784
    let sept_16_2023 = solar(2023, 9, 16);
    let hebrew = DateConverter::gregorian_to_hebrew(sept_16_2023).unwrap();

    assert_eq!(hebrew.year, 5784, "Year should be 5784, got {}", hebrew.year);
    assert_eq!(hebrew.month, HebrewMonth::Tishrei, "Month should be Tishrei, got {:?}", hebrew.month);
    assert_eq!(hebrew.day, 1, "Day should be 1, got {}", hebrew.day);

    // Test: Jan 1, 2024 should be Tevet 20, 5784
    let jan_1_2024 = solar(2024, 1, 1);
    let hebrew = DateConverter::gregorian_to_hebrew(jan_1_2024).unwrap();

    assert_eq!(hebrew.year, 5784, "Year should be 5784");
    assert_eq!(hebrew.month, HebrewMonth::Teves, "Month should be Teves");
    assert_eq!(hebrew.day, 20, "Day should be 20");
}

#[test]
fn test_hebrew_to_gregorian() {
    // Tishrei 1, 5784 should be Sept 16, 2023
    let tishrei_1_5784 = HebrewDate::new(5784, HebrewMonth::Tishrei, 1);
    let greg = DateConverter::hebrew_to_gregorian(tishrei_1_5784).unwrap();

    assert_eq!(greg.year(), 2023);
    assert_eq!(greg.month(), 9);
    assert_eq!(greg.day(), 16);
}

#[test]
fn test_roundtrip_conversion() {
    // Test various dates
    let test_dates = vec![
        (2023, 9, 16),
        (2024, 1, 1),
        (2024, 6, 15),
        (2020, 2, 29), // Leap year
        (2000, 1, 1),
        (1999, 12, 31),
    ];

    for (y, m, d) in test_dates {
        let original = solar(y, m, d);
        let hebrew = DateConverter::gregorian_to_hebrew(original).unwrap();
        let back = DateConverter::hebrew_to_gregorian(hebrew).unwrap();

        assert_eq!(original, back,
            "Roundtrip failed for {}-{:02}-{:02}: got {}-{:02}-{:02}",
            y, m, d, back.year(), back.month(), back.day());
    }
}

#[test]
fn test_year_types() {
    // 5784 is a leap year with 383 days
    assert!(DateConverter::is_hebrew_leap_year(5784));
    let days_5784 = DateConverter::days_in_hebrew_year(5784);
    assert_eq!(days_5784, 383, "Year 5784 should have 383 days");

    // 5783 is a common year
    assert!(!DateConverter::is_hebrew_leap_year(5783));
    let days_5783 = DateConverter::days_in_hebrew_year(5783);
    assert_eq!(days_5783, 355, "Year 5783 should have 355 days");
}

#[test]
fn test_leap_year_months() {
    // 5784 is a leap year, should have 13 months
    let months = DateConverter::months_in_hebrew_year(5784);
    assert_eq!(months, 13, "Leap year 5784 should have 13 months");

    // In leap year, Adar I is month 12, Adar II is month 13
    let adar1 = DateConverter::days_in_hebrew_month(5784, 12);
    let adar2 = DateConverter::days_in_hebrew_month(5784, 13);
    assert_eq!(adar1, 30, "Adar I should have 30 days");
    assert_eq!(adar2, 29, "Adar II should have 29 days");
}

#[test]
fn test_common_year_months() {
    // 5783 is common, should have 12 months
    let months = DateConverter::months_in_hebrew_year(5783);
    assert_eq!(months, 12, "Common year 5783 should have 12 months");

    // Regular Adar has 29 days in common year
    let adar = DateConverter::days_in_hebrew_month(5783, 12);
    assert_eq!(adar, 29, "Regular Adar should have 29 days");
}

#[test]
fn test_historical_dates() {
    // Test known historical dates
    // Yom Kippur War started October 6, 1973
    // That was Tishrei 10, 5734
    let oct_6_1973 = solar(1973, 10, 6);
    let hebrew = DateConverter::gregorian_to_hebrew(oct_6_1973).unwrap();

    assert_eq!(hebrew.year, 5734);
    assert_eq!(hebrew.month, HebrewMonth::Tishrei);
    assert_eq!(hebrew.day, 10);
}

#[test]
fn test_day_of_week() {
    // September 16, 2023 was a Saturday (day 6 in our 0=Sunday convention)
    let tishrei_1_5784 = HebrewDate::new(5784, HebrewMonth::Tishrei, 1);
    let dow = tishrei_1_5784.day_of_week();
    assert_eq!(dow, 6, "Rosh Hashanah 5784 should be Saturday (6)");

    // Verify by converting to Gregorian
    let greg = DateConverter::hebrew_to_gregorian(tishrei_1_5784).unwrap();
    let naive = NaiveDate::from_ymd_opt(greg.year(), greg.month(), greg.day()).unwrap();
    // In chrono, weekday() returns Mon=0, Tue=1, ..., Sun=6
    // So Saturday should be 5
    assert_eq!(naive.weekday().num_days_from_monday(), 5, "Should be Saturday");
}

// The day count against chrono's own, over the whole supported horizon.

#[test]
fn epoch_days_agree_with_chrono_over_the_horizon() {
    let first = DateConverter::gregorian_to_rd(solar(0, 1, 1));
    let last = DateConverter::gregorian_to_rd(solar(2050, 12, 31));
    assert_eq!(first, -364);
    assert_eq!(last - first, (NaiveDate::from_ymd_opt(2050, 12, 31).unwrap() - NaiveDate::from_ymd_opt(0, 1, 1).unwrap()).num_days() as i32);
    let mut rd = first;
    while rd <= last {
        let date = DateConverter::rd_to_gregorian(rd).unwrap();
        let naive = NaiveDate::from_num_days_from_ce_opt(rd - 1).unwrap();
        assert_eq!((date.year(), date.month(), date.day()), (naive.year(), naive.month(), naive.day()));
        assert_eq!(DateConverter::gregorian_to_rd(date), rd);
        rd += 1;
    }
}

#[test]
fn epoch_day_zero_is_a_saturday_at_the_end_of_year_zero() {
    let date = DateConverter::rd_to_gregorian(0).unwrap();
    assert_eq!((date.year(), date.month(), date.day()), (0, 12, 30));
    let naive = NaiveDate::from_ymd_opt(0, 12, 30).unwrap();
    assert_eq!(naive.weekday().num_days_from_sunday(), 6);
    assert_eq!(DateConverter::julian_day_to_rd(1721424), 0);
    assert_eq!(DateConverter::rd_to_julian_day(0), 1721424);
    assert_eq!(DateConverter::rd_to_julian_day(738780), 2460204);
}

#[test]
fn epoch_days_far_from_the_horizon() {
    // the leap day that ends a cycle of 400 years, and its neighbours
    for &(y, m, d) in &[(-400, 2, 29), (-400, 3, 1), (-1, 12, 31), (2000, 2, 29), (2400, 2, 29),
        (-262143, 1, 1), (262142, 12, 31), (-4801, 12, 31), (-4800, 1, 1), (-4800, 2, 29)]
    {
        let date = solar(y, m, d);
        let rd = DateConverter::gregorian_to_rd(date);
        let naive = NaiveDate::from_ymd_opt(y, m, d).unwrap();
        assert_eq!(rd, naive.num_days_from_ce() + 1, "{y}-{m}-{d}");
        assert_eq!(DateConverter::rd_to_gregorian(rd).unwrap(), date);
    }
}

#[test]
fn rd_to_gregorian_refuses_a_year_that_no_date_holds() {
    let last = DateConverter::gregorian_to_rd(solar(262142, 12, 31));
    assert!(DateConverter::rd_to_gregorian(last).is_ok());
    assert!(matches!(
        DateConverter::rd_to_gregorian(last + 1),
        Err(CalendarError::CalculationError(_))
    ));
    let first = DateConverter::gregorian_to_rd(solar(-262143, 1, 1));
    assert!(matches!(
        DateConverter::rd_to_gregorian(first - 1),
        Err(CalendarError::CalculationError(_))
    ));
    match DateConverter::rd_to_gregorian(2_000_000_000) {
        Err(CalendarError::CalculationError(text)) => {
            assert_eq!(text, "Invalid date from JD 2001721424")
        }
        other => panic!("expected a calculation error, got {:?}", other),
    }
    // a Hebrew year that is supported, far beyond the dates that exist
    let far = HebrewDate::new(300_000, HebrewMonth::Tishrei, 1);
    assert!(matches!(
        DateConverter::hebrew_to_gregorian(far),
        Err(CalendarError::CalculationError(_))
    ));
    assert_eq!(DateConverter::hebrew_to_julian_day(far).unwrap(),
        DateConverter::rosh_hashanah(300_000) + 1721424);
}

#[test]
fn from_ymd_opt_knows_the_calendar() {
    assert!(SolarDate::from_ymd_opt(2023, 2, 29).is_none());
    assert!(SolarDate::from_ymd_opt(2024, 2, 29).is_some());
    assert!(SolarDate::from_ymd_opt(1900, 2, 29).is_none());
    assert!(SolarDate::from_ymd_opt(2000, 2, 29).is_some());
    assert!(SolarDate::from_ymd_opt(2023, 4, 31).is_none());
    assert!(SolarDate::from_ymd_opt(2023, 0, 1).is_none());
    assert!(SolarDate::from_ymd_opt(2023, 13, 1).is_none());
    assert!(SolarDate::from_ymd_opt(2023, 1, 0).is_none());
    assert!(SolarDate::from_ymd_opt(262143, 1, 1).is_none());
    assert!(SolarDate::from_ymd_opt(-262144, 1, 1).is_none());
    assert_eq!(SolarDate::from_ymd_opt(0, 12, 31), Some(SolarDate { year: 0, month: 12, day: 31 }));
}

#[test]
fn iso_text_of_dates() {
    assert_eq!(solar(2024, 3, 5).to_iso_string(), "2024-03-05");
    assert_eq!(solar(0, 1, 1).to_iso_string(), "0000-01-01");
    assert_eq!(solar(987, 12, 31).to_iso_string(), "0987-12-31");
    assert_eq!(solar(-1, 1, 1).to_iso_string(), "-0001-01-01");
    assert_eq!(solar(-12345, 6, 7).to_iso_string(), "-12345-06-07");
    assert_eq!(solar(10000, 12, 31).to_iso_string(), "+10000-12-31");
}

// The Hebrew year.

#[test]
fn year_lengths_are_one_of_six_and_starts_increase() {
    let mut previous = DateConverter::rosh_hashanah(3700);
    let mut seen = [false; 6];
    for year in 3700..5900 {
        let next = DateConverter::rosh_hashanah(year + 1);
        assert!(next > previous);
        let days = DateConverter::days_in_hebrew_year(year);
        assert_eq!(days as i32, next - previous);
        let leap = DateConverter::is_hebrew_leap_year(year);
        let (kind, index) = match (days, leap) {
            (353, false) => (YearType::DeficientCommon, 0),
            (354, false) => (YearType::RegularCommon, 1),
            (355, false) => (YearType::CompleteCommon, 2),
            (383, true) => (YearType::DeficientLeap, 3),
            (384, true) => (YearType::RegularLeap, 4),
            (385, true) => (YearType::CompleteLeap, 5),
            other => panic!("year {} has {:?}", year, other),
        };
        seen[index] = true;
        assert_eq!(DateConverter::hebrew_year_type(year), kind);
        let months = DateConverter::months_in_hebrew_year(year);
        let total: u32 = (1..=months).map(|m| DateConverter::days_in_hebrew_month(year, m) as u32).sum();
        assert_eq!(total, days as u32);
        previous = next;
    }
    assert_eq!(seen, [true; 6]);
}

#[test]
fn seven_leap_years_in_every_nineteen() {
    for start in -40..6000 {
        let leaps = (start..start + 19).filter(|&y| DateConverter::is_hebrew_leap_year(y)).count();
        assert_eq!(leaps, 7, "from year {}", start);
        assert_eq!(DateConverter::is_hebrew_leap_year(start), DateConverter::is_hebrew_leap_year(start + 19));
    }
}

#[test]
fn the_first_year_begins_at_the_epoch() {
    assert_eq!(DateConverter::rosh_hashanah(1), -1373426);
    assert_eq!(DateConverter::rosh_hashanah(5784), 738780);
    // before the first year the count goes on backwards
    assert_eq!(DateConverter::rosh_hashanah(1) - DateConverter::rosh_hashanah(0), 384);
    assert!(DateConverter::is_hebrew_leap_year(0));
    assert_eq!(DateConverter::days_in_hebrew_year(-1), 353);
    // the ends of the supported years
    assert!(DateConverter::rosh_hashanah(5_000_000) > 1_800_000_000);
    assert!(DateConverter::rosh_hashanah(-5_000_000) < -1_800_000_000);
    assert!(DateConverter::days_in_hebrew_year(5_000_000) >= 353);
}

#[test]
fn hebrew_dates_go_round_over_the_horizon() {
    let first = DateConverter::gregorian_to_rd(solar(0, 1, 1));
    let last = DateConverter::gregorian_to_rd(solar(2050, 12, 31));
    let mut previous: Option<HebrewDate> = None;
    let mut rd = first;
    while rd <= last {
        let date = DateConverter::rd_to_gregorian(rd).unwrap();
        let hebrew = DateConverter::gregorian_to_hebrew(date).unwrap();
        assert_eq!(DateConverter::hebrew_to_rd(hebrew).unwrap(), rd);
        assert_eq!(DateConverter::rd_to_hebrew(rd).unwrap(), hebrew);
        assert_eq!(DateConverter::hebrew_to_gregorian(hebrew).unwrap(), date);
        let leap = DateConverter::is_hebrew_leap_year(hebrew.year);
        let number = hebrew.month.to_number(leap);
        assert!(1 <= hebrew.day && hebrew.day <= DateConverter::days_in_hebrew_month(hebrew.year, number));
        assert_eq!(HebrewMonth::from_number(number, leap).unwrap(), hebrew.month);
        if let Some(before) = previous {
            // the next day is the next day of the month, or the first of a month
            assert!(
                (hebrew.year == before.year && hebrew.month == before.month && hebrew.day == before.day + 1)
                    || hebrew.day == 1
            );
        }
        previous = Some(hebrew);
        rd += 1;
    }
}

#[test]
fn hebrew_dates_before_the_first_year() {
    let date = solar(-3800, 5, 17);
    let hebrew = DateConverter::gregorian_to_hebrew(date).unwrap();
    assert!(hebrew.year < 1);
    assert_eq!(DateConverter::hebrew_to_gregorian(hebrew).unwrap(), date);
    let early = solar(-262143, 1, 1);
    let hebrew = DateConverter::gregorian_to_hebrew(early).unwrap();
    assert_eq!(DateConverter::hebrew_to_gregorian(hebrew).unwrap(), early);
    let late = solar(262142, 12, 31);
    let hebrew = DateConverter::gregorian_to_hebrew(late).unwrap();
    assert_eq!(DateConverter::hebrew_to_gregorian(hebrew).unwrap(), late);
}

#[test]
fn months_by_number() {
    assert_eq!(HebrewMonth::from_number(12, false).unwrap(), HebrewMonth::Adar);
    assert_eq!(HebrewMonth::from_number(12, true).unwrap(), HebrewMonth::AdarI);
    assert_eq!(HebrewMonth::from_number(13, true).unwrap(), HebrewMonth::Adar);
    assert_eq!(HebrewMonth::from_number(7, false).unwrap(), HebrewMonth::Tishrei);
    match HebrewMonth::from_number(13, false) {
        Err(CalendarError::CalculationError(text)) => assert_eq!(text, "Month 13 invalid in common year"),
        other => panic!("expected a calculation error, got {:?}", other),
    }
    match HebrewMonth::from_number(0, true) {
        Err(CalendarError::CalculationError(text)) => assert_eq!(text, "Invalid Hebrew month number: 0"),
        other => panic!("expected a calculation error, got {:?}", other),
    }
    match HebrewMonth::from_number(200, false) {
        Err(CalendarError::CalculationError(text)) => assert_eq!(text, "Invalid Hebrew month number: 200"),
        other => panic!("expected a calculation error, got {:?}", other),
    }
    assert_eq!(HebrewMonth::Adar.to_number(false), 12);
    assert_eq!(HebrewMonth::Adar.to_number(true), 13);
    assert_eq!(HebrewMonth::AdarI.to_number(true), 12);
    assert_eq!(HebrewMonth::Nisan.to_number(true), 1);
    assert_eq!(HebrewMonth::AdarI.name(), "Adar I");
    assert_eq!(HebrewMonth::Teves.name(), "Teves");
}

#[test]
fn month_lengths_follow_the_kind_of_year() {
    // 5784 is deficient: Cheshvan and Kislev both have 29 days
    assert_eq!(DateConverter::hebrew_year_type(5784), YearType::DeficientLeap);
    assert_eq!(DateConverter::days_in_hebrew_month(5784, 8), 29);
    assert_eq!(DateConverter::days_in_hebrew_month(5784, 9), 29);
    // 5783 is complete: both have 30
    assert_eq!(DateConverter::hebrew_year_type(5783), YearType::CompleteCommon);
    assert_eq!(DateConverter::days_in_hebrew_month(5783, 8), 30);
    assert_eq!(DateConverter::days_in_hebrew_month(5783, 9), 30);
    // 5785 is regular: 29 and 30
    assert_eq!(DateConverter::hebrew_year_type(5785), YearType::CompleteCommon);
    assert_eq!(DateConverter::hebrew_year_type(5786), YearType::RegularCommon);
    assert_eq!(DateConverter::days_in_hebrew_month(5786, 8), 29);
    assert_eq!(DateConverter::days_in_hebrew_month(5786, 9), 30);
    assert_eq!(DateConverter::days_in_hebrew_month(5786, 1), 30);
    assert_eq!(DateConverter::days_in_hebrew_month(5786, 2), 29);
    assert_eq!(DateConverter::days_in_hebrew_month(5786, 7), 30);
    assert_eq!(DateConverter::days_in_hebrew_month(5786, 10), 29);
}

#[test]
fn hebrew_date_text_and_julian_day() {
    let date = HebrewDate::new(5784, HebrewMonth::AdarI, 7);
    assert_eq!(date.format(), "7 Adar I 5784");
    assert_eq!(HebrewDate::new(-12, HebrewMonth::Tishrei, 30).format(), "30 Tishrei -12");
    let rosh = HebrewDate::new(5784, HebrewMonth::Tishrei, 1);
    assert_eq!(rosh.to_julian_day().unwrap(), 2460204);
    assert_eq!(DateConverter::hebrew_to_julian_day(rosh).unwrap(), 2460204);
    // Nisan comes after Adar in the year that began in Tishrei
    let nisan = HebrewDate::new(5784, HebrewMonth::Nisan, 15);
    assert_eq!(DateConverter::hebrew_to_rd(nisan).unwrap() - DateConverter::hebrew_to_rd(rosh).unwrap(), 30 + 29 + 29 + 29 + 30 + 30 + 29 + 14);
    // every weekday, on seven days in a row
    for offset in 0..7u8 {
        let day = HebrewDate::new(5784, HebrewMonth::Tishrei, 1 + offset);
        assert_eq!(day.day_of_week(), (6 + offset) % 7);
    }
}

#[test]
fn rosh_hashanah_falls_on_four_days_of_the_week() {
    let mut seen = [false; 7];
    for year in 1..7000 {
        let weekday = HebrewDate::new(year, HebrewMonth::Tishrei, 1).day_of_week();
        assert!([1, 2, 4, 6].contains(&weekday), "year {} begins on {}", year, weekday);
        seen[weekday as usize] = true;
    }
    assert_eq!(seen, [false, true, true, false, true, false, true]);
}

#[test]
fn a_month_that_the_year_does_not_have_is_an_error() {
    // 5783 is a common year: it has no first Adar
    let missing = HebrewDate::new(5783, HebrewMonth::AdarI, 1);
    let expect = |error: CalendarError| match error {
        CalendarError::CalculationError(text) => assert_eq!(text, "Adar I invalid in common year"),
        other => panic!("expected a calculation error, got {:?}", other),
    };
    expect(DateConverter::hebrew_to_rd(missing).unwrap_err());
    expect(DateConverter::hebrew_to_gregorian(missing).unwrap_err());
    expect(DateConverter::hebrew_to_julian_day(missing).unwrap_err());
    expect(missing.to_julian_day().unwrap_err());
    // the only Adar of the common year, and both of the leap year, are there
    let adar = HebrewDate::new(5783, HebrewMonth::Adar, 1);
    assert_eq!(DateConverter::hebrew_to_gregorian(adar).unwrap(), solar(2023, 2, 22));
    let first = HebrewDate::new(5784, HebrewMonth::AdarI, 1);
    assert_eq!(DateConverter::hebrew_to_gregorian(first).unwrap(), solar(2024, 2, 10));
    let second = HebrewDate::new(5784, HebrewMonth::Adar, 1);
    assert_eq!(DateConverter::hebrew_to_gregorian(second).unwrap(), solar(2024, 3, 11));
    assert_eq!(
        DateConverter::hebrew_to_rd(second).unwrap() - DateConverter::hebrew_to_rd(first).unwrap(),
        30
    );
    // no date that a conversion finds lies in a month that is missing
    for year in 5780..5790 {
        let leap = DateConverter::is_hebrew_leap_year(year);
        let start = DateConverter::rosh_hashanah(year);
        for day in 0..DateConverter::days_in_hebrew_year(year) as i32 {
            let date = DateConverter::rd_to_hebrew(start + day).unwrap();
            assert_eq!(date.year, year);
            assert!(leap || date.month != HebrewMonth::AdarI);
        }
    }
}

#[test]
fn the_date_of_a_day_and_the_day_of_a_date() {
    assert_eq!(DateConverter::rd_to_hebrew(738780).unwrap(), HebrewDate::new(5784, HebrewMonth::Tishrei, 1));
    assert_eq!(DateConverter::rd_to_hebrew(738779).unwrap(), HebrewDate::new(5783, HebrewMonth::Elul, 29));
    assert_eq!(DateConverter::rd_to_hebrew(-1373426).unwrap(), HebrewDate::new(1, HebrewMonth::Tishrei, 1));
    assert_eq!(DateConverter::rd_to_hebrew(-1373427).unwrap(), HebrewDate::new(0, HebrewMonth::Elul, 29));
    // far from the epoch, at both ends of the supported years
    for rd in [1_700_000_000, 1_824_000_000, -1_373_426 - 400_000] {
        let date = DateConverter::rd_to_hebrew(rd).unwrap();
        assert_eq!(DateConverter::hebrew_to_rd(date).unwrap(), rd);
    }
    let last = HebrewDate::new(5_000_000, HebrewMonth::Elul, 29);
    let rd = DateConverter::hebrew_to_rd(last).unwrap();
    assert_eq!(rd, DateConverter::rosh_hashanah(5_000_000) + DateConverter::days_in_hebrew_year(5_000_000) as i32 - 1);
    assert_eq!(DateConverter::rd_to_hebrew(rd).unwrap(), last);
}
