use chrono::{Datelike, NaiveDate};
use hebrew_core::calendar::{DateConverter, GregorianDate, HebrewDate, HebrewMonth};
use hebrew_core::holidays::Holiday;
use hebrew_core::parsha::Parsha;
use hebrew_core::solar::SolarDate;
use hebrew_core::zmanim::{ClockTime, SolarEvents, ZmanimCalculator};
use hebrew_core::{CalendarError, HebrewCalendar};

fn solar(date: NaiveDate) -> SolarDate {
    SolarDate::from_ymd_opt(date.year(), date.month(), date.day()).unwrap()
}

fn clock(hour: u32, minute: u32) -> Option<ClockTime> {
    ClockTime::from_hm_opt(hour, minute)
}

/// The solar events of a summer day in Jerusalem, to the minute.
fn jerusalem_in_june() -> SolarEvents {
    SolarEvents {
        alot: clock(3, 58),
        misheyakir: clock(4, 30),
        sunrise: clock(5, 34),
        sunset: clock(19, 46),
        tzeit: clock(20, 27),
    }
}

#[test]
fn test_year_zero_boundary() {
    // Year 0 in ISO-8601 is 1 BCE
    let dec_31_bce = NaiveDate::from_ymd_opt(0, 12, 31).unwrap();
    let jan_1_ce = NaiveDate::from_ymd_opt(1, 1, 1).unwrap();

    // Verify dates are consecutive
    assert_eq!(dec_31_bce.succ_opt(), Some(jan_1_ce));
    assert_eq!(jan_1_ce.pred_opt(), Some(dec_31_bce));

    // Test Hebrew conversion at boundary
    let hebrew_dec_31 = DateConverter::gregorian_to_hebrew(solar(dec_31_bce)).unwrap();
    let hebrew_jan_1 = DateConverter::gregorian_to_hebrew(solar(jan_1_ce)).unwrap();

    // Should be consecutive Hebrew dates
    println!("Dec 31, 1 BCE: {:?}", hebrew_dec_31);
    println!("Jan 1, 1 CE: {:?}", hebrew_jan_1);
    assert_eq!(hebrew_dec_31, HebrewDate::new(3761, HebrewMonth::Teves, 17));
    assert_eq!(hebrew_jan_1, HebrewDate::new(3761, HebrewMonth::Teves, 18));
}

#[test]
fn test_date_parsing() {
    // ISO-8601 extended year format
    let d1 = HebrewCalendar::parse_date("+0000-01-01").unwrap();
    assert_eq!(d1.year(), 0);

    let d2 = HebrewCalendar::parse_date("0001-01-01").unwrap();
    assert_eq!(d2.year(), 1);

    let d3 = HebrewCalendar::parse_date("2024-12-25").unwrap();
    assert_eq!(d3.month(), 12);
    assert_eq!(d3.day(), 25);
}

#[test]
fn test_calculate_day_pesach() {
    // April 23, 2024 = 15 Nisan 5784 = Pesach Day 1
    let date = solar(NaiveDate::from_ymd_opt(2024, 4, 23).unwrap());
    let data = HebrewCalendar::calculate_day(date, None, 18).unwrap();
    assert_eq!(data.hebrew.month, HebrewMonth::Nisan);
    assert_eq!(data.hebrew.day, 15);
    assert!(data.holidays.contains(&Holiday::PesachDay1));
}

#[test]
fn test_calculate_day_with_location() {
    let date = solar(NaiveDate::from_ymd_opt(2024, 6, 15).unwrap());
    let data = HebrewCalendar::calculate_day(date, Some(jerusalem_in_june()), 18).unwrap();
    assert!(data.zmanim.is_some(), "With location, zmanim should be present");
}

#[test]
fn test_calculate_day_out_of_range() {
    let date = solar(NaiveDate::from_ymd_opt(2051, 1, 1).unwrap());
    let result = HebrewCalendar::calculate_day(date, None, 18);
    assert!(result.is_err());
    match result.unwrap_err() {
        CalendarError::DateOutOfRange(_) => {},
        other => panic!("Expected DateOutOfRange, got {:?}", other),
    }
}

#[test]
fn test_calculate_day_shabbat_yom_tov() {
    // Sept 16, 2023 = Shabbat, also Rosh Hashanah 5784
    let date = solar(NaiveDate::from_ymd_opt(2023, 9, 16).unwrap());
    let data = HebrewCalendar::calculate_day(date, None, 18).unwrap();
    assert!(data.is_yom_tov, "Shabbat Rosh Hashanah should be yom tov");
}

#[test]
fn test_calculate_day_parsha_on_shabbat() {
    // Oct 14, 2023 = Shabbat = Tishrei 29, 5784 (Bereshit)
    let date = solar(NaiveDate::from_ymd_opt(2023, 10, 14).unwrap());
    let data = HebrewCalendar::calculate_day(date, None, 18).unwrap();
    assert!(data.parsha.is_some(),
        "Shabbat should have parsha (bug fix validation)");
}

#[test]
fn test_calculate_day_parsha_not_on_weekday() {
    // Oct 10, 2023 = Tuesday
    let date = solar(NaiveDate::from_ymd_opt(2023, 10, 10).unwrap());
    let data = HebrewCalendar::calculate_day(date, None, 18).unwrap();
    assert!(data.parsha.is_none(),
        "Tuesday should not have parsha (bug fix validation)");
}

#[test]
fn test_format_display_date_ce() {
    let date = solar(NaiveDate::from_ymd_opt(2024, 3, 15).unwrap());
    let display = HebrewCalendar::format_display_date(date);
    assert_eq!(display, "3 15, 2024 AD");
}

#[test]
fn test_format_display_date_bce() {
    let date = solar(NaiveDate::from_ymd_opt(0, 6, 1).unwrap());
    let display = HebrewCalendar::format_display_date(date);
    assert_eq!(display, "6 1, 1 BCE");
}

#[test]
fn test_parse_date_invalid() {
    let result = HebrewCalendar::parse_date("not-a-date");
    assert!(result.is_err());
}

// The record of a day, field by field.

#[test]
fn record_of_a_shabbat_with_times() {
    let date = SolarDate::from_ymd_opt(2023, 10, 14).unwrap();
    let data = HebrewCalendar::calculate_day(date, Some(jerusalem_in_june()), 18).unwrap();
    assert_eq!(data.gregorian, GregorianDate {
        year: 2023,
        month: 10,
        day: 14,
        iso_string: "2023-10-14".to_string(),
        display: "10 14, 2023 AD".to_string(),
    });
    assert_eq!(data.gregorian, GregorianDate::from(date));
    assert_eq!(data.hebrew, HebrewDate::new(5784, HebrewMonth::Tishrei, 29));
    assert_eq!(data.parsha, Some(Parsha::Bereshit));
    assert_eq!(data.holidays, Vec::<Holiday>::new());
    assert!(data.is_yom_tov);
    assert_eq!(data.candle_lighting.as_deref(), Some("19:28"));
    let zmanim = data.zmanim.unwrap();
    assert_eq!(zmanim, ZmanimCalculator::calculate(date, &jerusalem_in_june()).unwrap());
    assert_eq!(zmanim.date, "2023-10-14");
    assert_eq!(zmanim.sunset.as_deref(), Some("19:46"));
    // the record and the calculator agree on candle lighting
    assert_eq!(ZmanimCalculator::candle_lighting(&zmanim, 18).unwrap(), data.candle_lighting);
}

#[test]
fn candles_are_lit_on_fridays_and_festivals_only() {
    let events = Some(jerusalem_in_june());
    // Thursday 12 October 2023: no candles
    let thursday = HebrewCalendar::calculate_day(SolarDate::from_ymd_opt(2023, 10, 12).unwrap(), events, 18).unwrap();
    assert!(!thursday.is_yom_tov);
    assert_eq!(thursday.candle_lighting, None);
    assert!(thursday.zmanim.is_some());
    // Friday 13 October 2023: candles, though the day is no Yom Tov
    let friday = HebrewCalendar::calculate_day(SolarDate::from_ymd_opt(2023, 10, 13).unwrap(), events, 40).unwrap();
    assert!(!friday.is_yom_tov);
    assert_eq!(friday.candle_lighting.as_deref(), Some("19:06"));
    assert_eq!(friday.parsha, None);
    // Tuesday 23 April 2024, the first day of Pesach: a Yom Tov on a weekday
    let pesach = HebrewCalendar::calculate_day(SolarDate::from_ymd_opt(2024, 4, 23).unwrap(), events, 18).unwrap();
    assert!(pesach.is_yom_tov);
    assert_eq!(pesach.holidays, vec![Holiday::PesachDay1]);
    assert_eq!(pesach.candle_lighting.as_deref(), Some("19:28"));
    // a day of Chanukah is no Yom Tov, and a weekday: no candle lighting time
    let chanukah = HebrewCalendar::calculate_day(SolarDate::from_ymd_opt(2023, 12, 11).unwrap(), events, 18).unwrap();
    assert!(chanukah.holidays.contains(&Holiday::ChanukahDay4));
    assert!(!chanukah.is_yom_tov);
    assert_eq!(chanukah.candle_lighting, None);
    // without a sunset there is no candle lighting, even on a Friday
    let mut polar = jerusalem_in_june();
    polar.sunset = None;
    let friday = HebrewCalendar::calculate_day(SolarDate::from_ymd_opt(2023, 10, 13).unwrap(), Some(polar), 18).unwrap();
    assert_eq!(friday.candle_lighting, None);
    assert_eq!(friday.zmanim.unwrap().chatzot, None);
    // without events there are no times at all
    let bare = HebrewCalendar::calculate_day(SolarDate::from_ymd_opt(2023, 10, 13).unwrap(), None, 18).unwrap();
    assert_eq!(bare.zmanim, None);
    assert_eq!(bare.candle_lighting, None);
}

#[test]
fn the_horizon_has_two_ends() {
    let first = SolarDate::from_ymd_opt(0, 1, 1).unwrap();
    let data = HebrewCalendar::calculate_day(first, None, 18).unwrap();
    assert_eq!(data.gregorian.display, "1 1, 1 BCE");
    assert_eq!(data.gregorian.iso_string, "0000-01-01");
    assert_eq!(data.hebrew.year, 3760);
    let last = SolarDate::from_ymd_opt(2050, 12, 31).unwrap();
    let data = HebrewCalendar::calculate_day(last, None, 18).unwrap();
    assert_eq!(data.hebrew.year, 5811);
    match HebrewCalendar::calculate_day(SolarDate::from_ymd_opt(-1, 12, 31).unwrap(), None, 18) {
        Err(CalendarError::DateOutOfRange(text)) => {
            assert_eq!(text, "Date -0001-12-31 is outside supported range")
        }
        other => panic!("expected an error, got {:?}", other),
    }
    match HebrewCalendar::calculate_day(SolarDate::from_ymd_opt(2051, 1, 1).unwrap(), None, 18) {
        Err(CalendarError::DateOutOfRange(text)) => {
            assert_eq!(text, "Date 2051-01-01 is outside supported range")
        }
        other => panic!("expected an error, got {:?}", other),
    }
}

#[test]
fn every_day_of_the_horizon_has_a_record() {
    let mut rd = DateConverter::gregorian_to_rd(SolarDate::from_ymd_opt(0, 1, 1).unwrap());
    let last = DateConverter::gregorian_to_rd(SolarDate::from_ymd_opt(2050, 12, 31).unwrap());
    while rd <= last {
        let date = DateConverter::rd_to_gregorian(rd).unwrap();
        let data = HebrewCalendar::calculate_day(date, None, 18).unwrap();
        let saturday = rd.rem_euclid(7) == 0;
        assert_eq!(data.parsha.is_some(), saturday);
        assert_eq!(data.is_yom_tov, saturday || data.holidays.iter().any(|h| h.is_yom_tov()));
        assert_eq!(DateConverter::hebrew_to_rd(data.hebrew).unwrap(), rd);
        rd += 11;
    }
}

#[test]
fn dates_are_read_in_two_forms() {
    let date = HebrewCalendar::parse_date("2024-12-25").unwrap();
    assert_eq!(date, SolarDate { year: 2024, month: 12, day: 25 });
    assert_eq!(HebrewCalendar::parse_date("-0005-12-31").unwrap(), SolarDate { year: -5, month: 12, day: 31 });
    assert_eq!(HebrewCalendar::parse_date("+12345-06-07").unwrap(), SolarDate { year: 12345, month: 6, day: 7 });
    assert_eq!(HebrewCalendar::parse_date("0000-02-29").unwrap(), SolarDate { year: 0, month: 2, day: 29 });
    for text in ["", "2024-02-30", "2024-13-01", "12/25/2024", "+", "2024-12-25 and more"] {
        match HebrewCalendar::parse_date(text) {
            Err(CalendarError::InvalidDateFormat(message)) => assert!(!message.is_empty()),
            other => panic!("{:?} should be no date, got {:?}", text, other),
        }
    }
    // what is read agrees with chrono itself
    for text in ["1999-12-31", "+0000-01-01", "-0001-3-4", "2024-2-3"] {
        let signed = text.starts_with('+') || text.starts_with('-');
        let expected = if signed {
            NaiveDate::parse_from_str(text, "%Y-%m-%d").ok()
        } else {
            text.parse::<NaiveDate>().ok()
        };
        assert_eq!(HebrewCalendar::parse_date(text).ok(), expected.map(solar), "{:?}", text);
    }
}

#[test]
fn messages_of_errors() {
    assert_eq!(
        CalendarError::DateOutOfRange("x".to_string()).message(),
        "Date out of supported range (0 AD to 2050 AD): x"
    );
    assert_eq!(CalendarError::InvalidDateFormat("y".to_string()).message(), "Invalid date format: y");
    assert_eq!(CalendarError::CalculationError("z".to_string()).message(), "Calculation error: z");
    let error = HebrewCalendar::parse_date("not-a-date").unwrap_err();
    assert_eq!(error.message(), "Invalid date format: input contains invalid characters");
}

#[test]
fn display_text_of_years_around_zero() {
    assert_eq!(HebrewCalendar::format_display_date(SolarDate::from_ymd_opt(1, 1, 1).unwrap()), "1 1, 1 AD");
    assert_eq!(HebrewCalendar::format_display_date(SolarDate::from_ymd_opt(0, 12, 31).unwrap()), "12 31, 1 BCE");
    assert_eq!(HebrewCalendar::format_display_date(SolarDate::from_ymd_opt(-43, 3, 15).unwrap()), "3 15, 44 BCE");
    assert_eq!(HebrewCalendar::format_display_date(SolarDate::from_ymd_opt(262142, 12, 31).unwrap()), "12 31, 262142 AD");
}

#[test]
fn what_chrono_read_becomes_a_date_or_an_error() {
    let date = SolarDate { year: 1999, month: 12, day: 31 };
    assert_eq!(HebrewCalendar::date_from_parse(Ok(date)).unwrap(), date);
    let error = "1999-13-01".parse::<NaiveDate>().unwrap_err();
    match HebrewCalendar::date_from_parse(Err(error)) {
        Err(CalendarError::InvalidDateFormat(text)) => assert_eq!(text, error.to_string()),
        other => panic!("expected an error of the format, got {:?}", other),
    }
}
