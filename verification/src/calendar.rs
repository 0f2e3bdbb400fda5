//! Conversion between the Gregorian and the Hebrew calendar.
//!
//! The Hebrew calendar here is the fixed arithmetic one, carried on before
//! its historical beginning. Days are counted from a fixed Saturday, epoch
//! day 0, which is 30 December of year 0.

use vstd::prelude::*;
use crate::arith::{div_floor, mod_floor};
use crate::civil::{
    civil_from_julian_day, julian_day_formula, lemma_date_round_trip, lemma_day_round_trip,
    lemma_julian_day_formula,
};
use crate::molad::{
    days_in_year, elapsed_days, is_leap_year, lemma_first_year_start, lemma_year_length,
    lemma_year_start_fits, lemma_year_start_span, lemma_year_start_weekday, months_in_year,
    year_length_correction,
    year_start, year_supported, HEBREW_EPOCH, MAX_HEBREW_YEAR, MIN_HEBREW_YEAR,
};
use crate::solar::{
    iso_date_text, SolarDate, JULIAN_DAY_OF_EPOCH, MAX_CIVIL_YEAR, MIN_CIVIL_YEAR,
};
use crate::text::{decimal_text, push_decimal};
use crate::CalendarError;

verus! {

/// The months of the Hebrew year. `Adar` is the only Adar of a common
/// year and the second Adar of a leap year; `AdarI` is the first Adar of
/// a leap year.
#[derive(Debug, Clone, Copy, PartialEq, Eq, Structural)]
pub enum HebrewMonth {
    Nisan,
    Iyar,
    Sivan,
    Tammuz,
    Av,
    Elul,
    Tishrei,
    Cheshvan,
    Kislev,
    Teves,
    Shevat,
    Adar,
    AdarI,
}

/// The six kinds of Hebrew year, by length.
#[derive(Debug, Clone, Copy, PartialEq, Eq, Structural)]
pub enum YearType {
    DeficientCommon,
    RegularCommon,
    CompleteCommon,
    DeficientLeap,
    RegularLeap,
    CompleteLeap,
}

impl YearType {
    /// The number of days of a year of this kind.
    pub open spec fn days(self) -> int {
        match self {
            YearType::DeficientCommon => 353,
            YearType::RegularCommon => 354,
            YearType::CompleteCommon => 355,
            YearType::DeficientLeap => 383,
            YearType::RegularLeap => 384,
            YearType::CompleteLeap => 385,
        }
    }

    /// Whether Cheshvan has its thirtieth day in a year of this kind.
    pub open spec fn is_complete(self) -> bool {
        self == YearType::CompleteCommon || self == YearType::CompleteLeap
    }

    /// Whether Kislev lacks its thirtieth day in a year of this kind.
    pub open spec fn is_deficient(self) -> bool {
        self == YearType::DeficientCommon || self == YearType::DeficientLeap
    }
}

/// Whether Cheshvan has thirty days in `year`.
pub open spec fn is_complete_year(year: int) -> bool {
    days_in_year(year) == 355 || days_in_year(year) == 385
}

/// Whether Kislev has only twenty-nine days in `year`.
pub open spec fn is_deficient_year(year: int) -> bool {
    days_in_year(year) == 353 || days_in_year(year) == 383
}

/// The length of the month with number `month` in `year`, for the
/// numbers from 1 to the number of months of the year. Months are
/// numbered from Nisan; in a leap year 12 is the first Adar and 13 the
/// second.
pub open spec fn month_length(year: int, month: int) -> int {
    if month == 8 {
        if is_complete_year(year) {
            30
        } else {
            29
        }
    } else if month == 9 {
        if is_deficient_year(year) {
            29
        } else {
            30
        }
    } else if month == 12 {
        if is_leap_year(year) {
            30
        } else {
            29
        }
    } else if month == 2 || month == 4 || month == 6 || month == 10 || month == 13 {
        29
    } else {
        30
    }
}

/// The place of the month with number `month` in the year, which begins
/// with Tishrei, month 7, at place 0.
pub open spec fn month_position(year: int, month: int) -> int {
    if month >= 7 {
        month - 7
    } else {
        months_in_year(year) - 7 + month
    }
}

/// The number of the month at `position` in the year.
pub open spec fn month_at(year: int, position: int) -> int {
    if position + 7 <= months_in_year(year) {
        position + 7
    } else {
        position + 7 - months_in_year(year)
    }
}

/// The days of `year` that lie before the month at `position`.
pub open spec fn days_before_position(year: int, position: int) -> int
    decreases position,
{
    if position <= 0 {
        0
    } else {
        days_before_position(year, position - 1) + month_length(
            year,
            month_at(year, position - 1),
        )
    }
}

impl HebrewMonth {
    /// The number of the month, counted from Nisan, in a common or a leap
    /// year that has the month. The first Adar is month 12 of a leap year,
    /// and the number is 12 also where a common year is asked for it,
    /// which has no such month.
    pub open spec fn number(self, leap: bool) -> int {
        match self {
            HebrewMonth::Nisan => 1,
            HebrewMonth::Iyar => 2,
            HebrewMonth::Sivan => 3,
            HebrewMonth::Tammuz => 4,
            HebrewMonth::Av => 5,
            HebrewMonth::Elul => 6,
            HebrewMonth::Tishrei => 7,
            HebrewMonth::Cheshvan => 8,
            HebrewMonth::Kislev => 9,
            HebrewMonth::Teves => 10,
            HebrewMonth::Shevat => 11,
            HebrewMonth::Adar => if leap {
                13
            } else {
                12
            },
            HebrewMonth::AdarI => 12,
        }
    }

    /// Whether a year, common or leap, has this month.
    pub open spec fn occurs_in(self, leap: bool) -> bool {
        self == HebrewMonth::AdarI ==> leap
    }

    /// The English name of the month.
    pub open spec fn name_text(self) -> &'static str {
        match self {
            HebrewMonth::Tishrei => "Tishrei",
            HebrewMonth::Cheshvan => "Cheshvan",
            HebrewMonth::Kislev => "Kislev",
            HebrewMonth::Teves => "Teves",
            HebrewMonth::Shevat => "Shevat",
            HebrewMonth::Adar => "Adar",
            HebrewMonth::AdarI => "Adar I",
            HebrewMonth::Nisan => "Nisan",
            HebrewMonth::Iyar => "Iyar",
            HebrewMonth::Sivan => "Sivan",
            HebrewMonth::Tammuz => "Tammuz",
            HebrewMonth::Av => "Av",
            HebrewMonth::Elul => "Elul",
        }
    }

    /// The month with number `n` in a common or in a leap year. A number
    /// that names no month of such a year is a calculation error.
    pub fn from_number(n: u8, is_leap: bool) -> (month: Result<HebrewMonth, CalendarError>)
        ensures
            match month {
                Ok(m) => {
                    &&& 1 <= n <= 12 || (n == 13 && is_leap)
                    &&& m.number(is_leap) == n
                    &&& m.occurs_in(is_leap)
                },
                Err(CalendarError::CalculationError(text)) => if n == 13 {
                    !is_leap && text@ == "Month 13 invalid in common year"@
                } else {
                    (n == 0 || n > 13) && text@ == "Invalid Hebrew month number: "@ + decimal_text(
                        n as int,
                    )
                },
                Err(_) => false,
            },
    {
        if n == 1 {
            Ok(HebrewMonth::Nisan)
        } else if n == 2 {
            Ok(HebrewMonth::Iyar)
        } else if n == 3 {
            Ok(HebrewMonth::Sivan)
        } else if n == 4 {
            Ok(HebrewMonth::Tammuz)
        } else if n == 5 {
            Ok(HebrewMonth::Av)
        } else if n == 6 {
            Ok(HebrewMonth::Elul)
        } else if n == 7 {
            Ok(HebrewMonth::Tishrei)
        } else if n == 8 {
            Ok(HebrewMonth::Cheshvan)
        } else if n == 9 {
            Ok(HebrewMonth::Kislev)
        } else if n == 10 {
            Ok(HebrewMonth::Teves)
        } else if n == 11 {
            Ok(HebrewMonth::Shevat)
        } else if n == 12 {
            if is_leap {
                Ok(HebrewMonth::AdarI)
            } else {
                Ok(HebrewMonth::Adar)
            }
        } else if n == 13 {
            if is_leap {
                Ok(HebrewMonth::Adar)
            } else {
                Err(CalendarError::CalculationError("Month 13 invalid in common year".to_owned()))
            }
        } else {
            let mut text = "Invalid Hebrew month number: ".to_owned();
            push_decimal(&mut text, n as i64);
            Err(CalendarError::CalculationError(text))
        }
    }

    /// The English name of the month.
    pub fn name(&self) -> (name: &'static str)
        ensures
            name == self.name_text(),
    {
        match self {
            HebrewMonth::Tishrei => "Tishrei",
            HebrewMonth::Cheshvan => "Cheshvan",
            HebrewMonth::Kislev => "Kislev",
            HebrewMonth::Teves => "Teves",
            HebrewMonth::Shevat => "Shevat",
            HebrewMonth::Adar => "Adar",
            HebrewMonth::AdarI => "Adar I",
            HebrewMonth::Nisan => "Nisan",
            HebrewMonth::Iyar => "Iyar",
            HebrewMonth::Sivan => "Sivan",
            HebrewMonth::Tammuz => "Tammuz",
            HebrewMonth::Av => "Av",
            HebrewMonth::Elul => "Elul",
        }
    }

    /// The number of the month, counted from Nisan, in a year that has
    /// the month: from 1 to 12 in a common year, and to 13 in a leap year.
    pub fn to_number(&self, is_leap: bool) -> (n: u8)
        requires
            self.occurs_in(is_leap),
        ensures
            n == self.number(is_leap),
            1 <= n <= (if is_leap {
                13int
            } else {
                12int
            }),
    {
        match self {
            HebrewMonth::Nisan => 1,
            HebrewMonth::Iyar => 2,
            HebrewMonth::Sivan => 3,
            HebrewMonth::Tammuz => 4,
            HebrewMonth::Av => 5,
            HebrewMonth::Elul => 6,
            HebrewMonth::Tishrei => 7,
            HebrewMonth::Cheshvan => 8,
            HebrewMonth::Kislev => 9,
            HebrewMonth::Teves => 10,
            HebrewMonth::Shevat => 11,
            HebrewMonth::Adar => if is_leap {
                13
            } else {
                12
            },
            HebrewMonth::AdarI => 12,
        }
    }
}

/// A day of the Hebrew calendar.
#[derive(Debug, Clone, Copy, PartialEq, Eq, Structural)]
pub struct HebrewDate {
    pub year: i32,
    pub month: HebrewMonth,
    pub day: u8,
}

/// The weekday of an epoch day, from 0 for Sunday to 6 for Saturday.
pub open spec fn weekday_of(epoch_day: int) -> int {
    (epoch_day % 7 + 6) % 7
}

/// The text of a Hebrew date: day, month name and year.
pub open spec fn hebrew_date_text(date: HebrewDate) -> Seq<char> {
    decimal_text(date.day as int) + " "@ + date.month.name_text()@ + " "@ + decimal_text(
        date.year as int,
    )
}

/// The text of a Gregorian date for display: month, day and the year of
/// the common era or before it.
pub open spec fn display_text(year: int, month: int, day: int) -> Seq<char> {
    decimal_text(month) + " "@ + decimal_text(day) + ", "@ + (if year <= 0 {
        decimal_text(1 - year) + " BCE"@
    } else {
        decimal_text(year) + " AD"@
    })
}

/// The valid Hebrew date that falls on an epoch day.
pub open spec fn hebrew_date_of(epoch_day: int) -> HebrewDate {
    choose|date: HebrewDate| date.is_valid() && date.epoch_day() == epoch_day
}

/// The Gregorian year in which an epoch day falls.
pub open spec fn civil_year_of(epoch_day: int) -> int {
    civil_from_julian_day(epoch_day + JULIAN_DAY_OF_EPOCH).0
}

/// Whether the Gregorian date of an epoch day is one that a date can hold.
pub open spec fn has_solar_date(epoch_day: int) -> bool {
    MIN_CIVIL_YEAR <= civil_year_of(epoch_day) <= MAX_CIVIL_YEAR
}

/// The message for an epoch day whose Gregorian date no date can hold.
/// It names the Julian day number of the day.
pub open spec fn no_solar_date_text(epoch_day: int) -> Seq<char> {
    "Invalid date from JD "@ + decimal_text(epoch_day + JULIAN_DAY_OF_EPOCH)
}

/// The message for a date in a month that its year does not have. Only
/// the first Adar can be missing, in a common year.
pub open spec fn missing_month_text() -> Seq<char> {
    "Adar I invalid in common year"@
}

/// Whether an epoch day falls in one of the supported Hebrew years.
pub open spec fn in_supported_years(epoch_day: int) -> bool {
    year_start(MIN_HEBREW_YEAR as int) <= epoch_day < year_start(MAX_HEBREW_YEAR + 1)
}

impl HebrewDate {
    /// Whether the year of the date has the month of the date.
    pub open spec fn has_month(self) -> bool {
        self.month.occurs_in(is_leap_year(self.year as int))
    }

    /// Whether the year is supported, the year has the month, and the
    /// month has the day.
    pub open spec fn is_valid(self) -> bool {
        let leap = is_leap_year(self.year as int);
        &&& year_supported(self.year as int)
        &&& self.has_month()
        &&& 1 <= self.day <= month_length(self.year as int, self.month.number(leap))
    }

    /// The place of the date's month in its year.
    pub open spec fn position(self) -> int {
        month_position(self.year as int, self.month.number(is_leap_year(self.year as int)))
    }

    /// The epoch day of the date: the start of its year, the months
    /// before its month, and the days before it in its month. It is the
    /// day of the date where the year has the month.
    pub open spec fn epoch_day(self) -> int {
        year_start(self.year as int) + days_before_position(self.year as int, self.position())
            + self.day - 1
    }

    /// The date with this year, month and day, whether or not the
    /// calendar has such a day.
    pub fn new(year: i32, month: HebrewMonth, day: u8) -> (date: HebrewDate)
        ensures
            date == (HebrewDate { year, month, day }),
    {
        HebrewDate { year, month, day }
    }

    /// The date as text: day, month name and year.
    pub fn format(&self) -> (text: String)
        ensures
            text@ == hebrew_date_text(*self),
    {
        let mut text = String::new();
        push_decimal(&mut text, self.day as i64);
        text.push_str(" ");
        text.push_str(self.month.name());
        text.push_str(" ");
        push_decimal(&mut text, self.year as i64);
        text
    }

    /// The day of the week, from 0 for Sunday to 6 for Saturday, of a
    /// date in a month that its year has.
    pub fn day_of_week(&self) -> (weekday: u8)
        requires
            year_supported(self.year as int),
            self.has_month(),
        ensures
            weekday == weekday_of(self.epoch_day()),
    {
        match DateConverter::hebrew_to_rd(*self) {
            Ok(rd) => mod_floor(mod_floor(rd as i64, 7) + 6, 7) as u8,
            Err(_) => 0,
        }
    }

    /// The Julian day number of the date. A date in a month that its
    /// year does not have is a calculation error.
    pub fn to_julian_day(&self) -> (jd: Result<i32, CalendarError>)
        requires
            year_supported(self.year as int),
        ensures
            match jd {
                Ok(day) => self.has_month() && day == self.epoch_day() + JULIAN_DAY_OF_EPOCH,
                Err(CalendarError::CalculationError(text)) => !self.has_month() && text@
                    == missing_month_text(),
                Err(_) => false,
            },
    {
        DateConverter::hebrew_to_julian_day(*self)
    }
}

/// A Gregorian date with its texts, as it is shown.
#[derive(Debug, Clone, PartialEq, Eq)]
pub struct GregorianDate {
    pub year: i32,
    pub month: u8,
    pub day: u8,
    pub iso_string: String,
    pub display: String,
}

impl GregorianDate {
    /// The date `date` with its texts.
    pub fn from(date: SolarDate) -> (shown: GregorianDate)
        requires
            date.is_valid(),
        ensures
            shown.year == date.year,
            shown.month == date.month,
            shown.day == date.day,
            shown.iso_string@ == iso_date_text(
                date.year as int,
                date.month as int,
                date.day as int,
            ),
            shown.display@ == display_text(date.year as int, date.month as int, date.day as int),
    {
        GregorianDate {
            year: date.year,
            month: date.month as u8,
            day: date.day as u8,
            iso_string: date.to_iso_string(),
            display: display_string(date),
        }
    }
}

/// The text of a Gregorian date for display. Year 0 is shown as 1 BCE.
pub fn display_string(date: SolarDate) -> (text: String)
    ensures
        text@ == display_text(date.year as int, date.month as int, date.day as int),
{
    let mut text = String::new();
    push_decimal(&mut text, date.month as i64);
    text.push_str(" ");
    push_decimal(&mut text, date.day as i64);
    text.push_str(", ");
    if date.year <= 0 {
        push_decimal(&mut text, 1 - date.year as i64);
        text.push_str(" BCE");
    } else {
        push_decimal(&mut text, date.year as i64);
        text.push_str(" AD");
    }
    text
}

/// The conversions between the two calendars.
pub struct DateConverter;

/// The days of the month with number `month` in a year of kind
/// `year_type`, with or without a leap month.
pub open spec fn month_length_by_type(year_type: YearType, leap: bool, month: int) -> int {
    if month == 8 {
        if year_type.is_complete() {
            30
        } else {
            29
        }
    } else if month == 9 {
        if year_type.is_deficient() {
            29
        } else {
            30
        }
    } else if month == 12 {
        if leap {
            30
        } else {
            29
        }
    } else if month == 2 || month == 4 || month == 6 || month == 10 || month == 13 {
        29
    } else {
        30
    }
}

/// The months of a year add up to the year.
pub proof fn lemma_months_fill_year(year: int)
    ensures
        days_before_position(year, months_in_year(year)) == days_in_year(year),
{
    lemma_year_length(year);
    reveal_with_fuel(days_before_position, 14);
}

/// The days before a month grow with its place in the year.
pub proof fn lemma_days_before_position_increasing(year: int, earlier: int, later: int)
    requires
        0 <= earlier <= later,
    ensures
        days_before_position(year, earlier) + 29 * (later - earlier) <= days_before_position(
            year,
            later,
        ),
    decreases later - earlier,
{
    if earlier < later {
        lemma_days_before_position_increasing(year, earlier, later - 1);
    }
}

impl DateConverter {
    /// Whether a Hebrew year is a leap year.
    pub fn is_hebrew_leap_year(year: i32) -> (leap: bool)
        ensures
            leap == is_leap_year(year as int),
    {
        mod_floor(7 * (year as i64) + 1, 19) < 7
    }

    /// The number of months in a Hebrew year, 12 or 13.
    pub fn months_in_hebrew_year(year: i32) -> (months: u8)
        ensures
            months == months_in_year(year as int),
    {
        if Self::is_hebrew_leap_year(year) {
            13
        } else {
            12
        }
    }

    /// Days from the epoch to the molad of Tishrei of `year`, moved on by
    /// a day where the first postponement asks for it.
    fn hebrew_calendar_elapsed_days(year: i64) -> (days: i64)
        requires
            -0x1_0000_0000 <= year <= 0x1_0000_0000,
        ensures
            days == elapsed_days(year as int),
            -0x200_0000_0000 <= days <= 0x200_0000_0000,
    {
        let months_elapsed: i64 = div_floor(235 * year - 234, 19);
        let parts_elapsed: i64 = 12084 + 13753 * months_elapsed;
        let days: i64 = 29 * months_elapsed + div_floor(parts_elapsed, 25920);
        if mod_floor(3 * (days + 1), 7) < 3 {
            days + 1
        } else {
            days
        }
    }

    /// The days, 0 to 2, by which the start of `year` is delayed so that
    /// no year has 356 or 382 days.
    fn hebrew_year_length_correction(year: i64) -> (days: i64)
        requires
            -0xffff_ffff <= year <= 0xffff_ffff,
        ensures
            days == year_length_correction(year as int),
            0 <= days <= 2,
    {
        let ny0 = Self::hebrew_calendar_elapsed_days(year - 1);
        let ny1 = Self::hebrew_calendar_elapsed_days(year);
        let ny2 = Self::hebrew_calendar_elapsed_days(year + 1);
        if ny2 - ny1 == 356 {
            2
        } else if ny1 - ny0 == 382 {
            1
        } else {
            0
        }
    }

    /// The epoch day of the first day of `year`.
    fn hebrew_new_year(year: i32) -> (rd: i32)
        requires
            MIN_HEBREW_YEAR - 1 <= year <= MAX_HEBREW_YEAR + 1,
        ensures
            rd == year_start(year as int),
    {
        let elapsed = Self::hebrew_calendar_elapsed_days(year as i64);
        let correction = Self::hebrew_year_length_correction(year as i64);
        proof {
            reveal(year_start);
            lemma_year_start_fits(year as int);
        }
        (HEBREW_EPOCH as i64 + elapsed + correction) as i32
    }

    /// The epoch day of Rosh Hashanah, the first of Tishrei, of `year`.
    pub fn rosh_hashanah(year: i32) -> (rd: i32)
        requires
            year_supported(year as int),
        ensures
            rd == year_start(year as int),
    {
        Self::hebrew_new_year(year)
    }

    /// The number of days of a Hebrew year.
    pub fn days_in_hebrew_year(year: i32) -> (days: u16)
        requires
            year_supported(year as int),
        ensures
            days == days_in_year(year as int),
    {
        let rosh_next = Self::hebrew_new_year(year + 1);
        let rosh_this = Self::hebrew_new_year(year);
        proof {
            lemma_year_length(year as int);
        }
        (rosh_next - rosh_this) as u16
    }

    /// The kind of a Hebrew year: deficient, regular or complete, common
    /// or leap.
    pub fn hebrew_year_type(year: i32) -> (year_type: YearType)
        requires
            year_supported(year as int),
        ensures
            year_type.days() == days_in_year(year as int),
    {
        let days = Self::days_in_hebrew_year(year);
        let is_leap = Self::is_hebrew_leap_year(year);
        proof {
            lemma_year_length(year as int);
        }
        if days == 353 && !is_leap {
            YearType::DeficientCommon
        } else if days == 354 && !is_leap {
            YearType::RegularCommon
        } else if days == 355 && !is_leap {
            YearType::CompleteCommon
        } else if days == 383 && is_leap {
            YearType::DeficientLeap
        } else if days == 384 && is_leap {
            YearType::RegularLeap
        } else if days == 385 && is_leap {
            YearType::CompleteLeap
        } else {
            YearType::RegularCommon
        }
    }

    /// The days of a month in a year of the given kind.
    fn days_in_month_of_type(year_type: YearType, is_leap: bool, month: u8) -> (days: u8)
        ensures
            days == month_length_by_type(year_type, is_leap, month as int),
    {
        if month == 8 {
            match year_type {
                YearType::CompleteCommon | YearType::CompleteLeap => 30,
                _ => 29,
            }
        } else if month == 9 {
            match year_type {
                YearType::DeficientCommon | YearType::DeficientLeap => 29,
                _ => 30,
            }
        } else if month == 12 {
            if is_leap {
                30
            } else {
                29
            }
        } else if month == 2 || month == 4 || month == 6 || month == 10 || month == 13 {
            29
        } else {
            30
        }
    }

    /// The number of days of the month with number `month` in `year`,
    /// for a month that the year has.
    pub fn days_in_hebrew_month(year: i32, month: u8) -> (days: u8)
        requires
            year_supported(year as int),
            1 <= month <= months_in_year(year as int),
        ensures
            days == month_length(year as int, month as int),
    {
        let year_type = Self::hebrew_year_type(year);
        let is_leap = Self::is_hebrew_leap_year(year);
        Self::days_in_month_of_type(year_type, is_leap, month)
    }

    /// The epoch day of a Hebrew date. A date in a month that its year
    /// does not have, the first Adar of a common year, is a calculation
    /// error. The epoch day of a valid date falls in a supported year,
    /// and the date is the date of that day.
    pub fn hebrew_to_rd(hebrew: HebrewDate) -> (rd: Result<i32, CalendarError>)
        requires
            year_supported(hebrew.year as int),
        ensures
            match rd {
                Ok(day) => {
                    &&& hebrew.has_month()
                    &&& day == hebrew.epoch_day()
                    &&& hebrew.is_valid() ==> in_supported_years(day as int) && hebrew_date_of(
                        day as int,
                    ) == hebrew
                },
                Err(CalendarError::CalculationError(text)) => !hebrew.has_month() && text@
                    == missing_month_text(),
                Err(_) => false,
            },
    {
        let year = hebrew.year;
        let is_leap = Self::is_hebrew_leap_year(year);
        if !is_leap {
            match hebrew.month {
                HebrewMonth::AdarI => {
                    return Err(
                        CalendarError::CalculationError(
                            "Adar I invalid in common year".to_owned(),
                        ),
                    );
                },
                _ => {},
            }
        }
        let year_type = Self::hebrew_year_type(year);
        let months = Self::months_in_hebrew_year(year);
        let month_num = hebrew.month.to_number(is_leap);
        let target: u8 = if month_num >= 7 {
            month_num - 7
        } else {
            months - 7 + month_num
        };
        let mut rd: i64 = Self::hebrew_new_year(year) as i64;
        let mut position: u8 = 0;
        proof {
            lemma_year_start_fits(year as int);
        }
        while position < target
            invariant
                position <= target <= 12,
                months == months_in_year(year as int),
                year_type.days() == days_in_year(year as int),
                is_leap == is_leap_year(year as int),
                rd == year_start(year as int) + days_before_position(year as int, position as int),
                -2_000_000_000 <= year_start(year as int) <= 2_000_000_000,
                0 <= days_before_position(year as int, position as int) <= 30 * position,
            decreases target - position,
        {
            let month: u8 = if position + 7 <= months {
                position + 7
            } else {
                position + 7 - months
            };
            rd = rd + Self::days_in_month_of_type(year_type, is_leap, month) as i64;
            position = position + 1;
        }
        rd = rd + (hebrew.day as i64 - 1);
        proof {
            if hebrew.is_valid() {
                lemma_valid_date_day(hebrew);
            }
        }
        Ok(rd as i32)
    }

    /// The Julian day number of a Hebrew date. A date in a month that
    /// its year does not have is a calculation error.
    pub fn hebrew_to_julian_day(hebrew: HebrewDate) -> (jd: Result<i32, CalendarError>)
        requires
            year_supported(hebrew.year as int),
        ensures
            match jd {
                Ok(day) => hebrew.has_month() && day == hebrew.epoch_day() + JULIAN_DAY_OF_EPOCH,
                Err(CalendarError::CalculationError(text)) => !hebrew.has_month() && text@
                    == missing_month_text(),
                Err(_) => false,
            },
    {
        match Self::hebrew_to_rd(hebrew) {
            Ok(rd) => {
                proof {
                    lemma_epoch_day_fits(hebrew);
                }
                Ok(Self::rd_to_julian_day(rd))
            },
            Err(error) => Err(error),
        }
    }

    /// The Hebrew date that falls on an epoch day, for a day in one of
    /// the supported years: the valid date whose epoch day it is.
    pub fn rd_to_hebrew(rd: i32) -> (hebrew: Result<HebrewDate, CalendarError>)
        requires
            in_supported_years(rd as int),
        ensures
            hebrew matches Ok(date) && date.is_valid() && date.epoch_day() == rd && date
                == hebrew_date_of(rd as int),
    {
        // a first guess of the year, from the mean length of a solar year,
        // kept within the supported years
        let since_epoch: i64 = rd as i64 - HEBREW_EPOCH as i64;
        let guess: i64 = if since_epoch > 0 {
            since_epoch * 4 / 1461 + 1
        } else {
            1
        };
        let mut year: i32 = if guess > MAX_HEBREW_YEAR as i64 {
            MAX_HEBREW_YEAR
        } else {
            guess as i32
        };
        while rd < Self::hebrew_new_year(year)
            invariant
                MIN_HEBREW_YEAR <= year <= MAX_HEBREW_YEAR,
                in_supported_years(rd as int),
            decreases year - MIN_HEBREW_YEAR,
        {
            year = year - 1;
        }
        while rd >= Self::hebrew_new_year(year + 1)
            invariant
                MIN_HEBREW_YEAR <= year <= MAX_HEBREW_YEAR,
                year_start(year as int) <= rd,
                in_supported_years(rd as int),
            decreases MAX_HEBREW_YEAR - year,
        {
            year = year + 1;
        }
        let is_leap = Self::is_hebrew_leap_year(year);
        let year_type = Self::hebrew_year_type(year);
        let months = Self::months_in_hebrew_year(year);
        let mut remaining: i64 = rd as i64 - Self::hebrew_new_year(year) as i64;
        let mut position: u8 = 0;
        let mut month: u8 = 7;
        proof {
            lemma_months_fill_year(year as int);
        }
        while remaining >= Self::days_in_month_of_type(year_type, is_leap, month) as i64
            invariant
                MIN_HEBREW_YEAR <= year <= MAX_HEBREW_YEAR,
                0 <= position < months,
                months == months_in_year(year as int),
                is_leap == is_leap_year(year as int),
                year_type.days() == days_in_year(year as int),
                month == month_at(year as int, position as int),
                0 <= remaining < 400,
                remaining == rd - year_start(year as int) - days_before_position(
                    year as int,
                    position as int,
                ),
                rd - year_start(year as int) < days_before_position(year as int, months as int),
            decreases months - position,
        {
            remaining = remaining - Self::days_in_month_of_type(year_type, is_leap, month) as i64;
            position = position + 1;
            proof {
                if position >= months {
                    lemma_days_before_position_increasing(
                        year as int,
                        months as int,
                        position as int,
                    );
                }
            }
            month = if position + 7 <= months {
                position + 7
            } else {
                position + 7 - months
            };
        }
        match HebrewMonth::from_number(month, is_leap) {
            Ok(found) => {
                let date = HebrewDate::new(year, found, (remaining + 1) as u8);
                proof {
                    lemma_hebrew_round_trip(date);
                }
                Ok(date)
            },
            Err(error) => Err(error),
        }
    }

    /// The Julian day number of a Gregorian date.
    fn gregorian_to_julian_day(date: SolarDate) -> (jd: i32)
        requires
            date.is_valid(),
        ensures
            jd == date.julian_day(),
    {
        let year = date.year as i64;
        let month = date.month as i64;
        let day = date.day as i64;
        let a = (14 - month) / 12;
        let y = year + 4800 - a;
        let m = month + 12 * a - 3;
        proof {
            reveal(julian_day_formula);
            lemma_julian_day_formula(year as int, month as int, day as int);
            lemma_solar_date_range(date);
        }
        (day + (153 * m + 2) / 5 + 365 * y + div_floor(y, 4) - div_floor(y, 100) + div_floor(
            y,
            400,
        ) - 32045) as i32
    }

    /// The Gregorian date of a Julian day number. Where the year of that
    /// date is more than a date can hold, the result is an error.
    fn julian_day_to_gregorian(jd: i32) -> (date: Result<SolarDate, CalendarError>)
        ensures
            match date {
                Ok(found) => found.is_valid() && civil_from_julian_day(jd as int) == (
                    found.year as int,
                    found.month as int,
                    found.day as int,
                ),
                Err(CalendarError::CalculationError(text)) => {
                    let year = civil_from_julian_day(jd as int).0;
                    &&& !(MIN_CIVIL_YEAR <= year <= MAX_CIVIL_YEAR)
                    &&& text@ == "Invalid date from JD "@ + decimal_text(jd as int)
                },
                Err(_) => false,
            },
    {
        let l: i64 = jd as i64 + 68569;
        let n: i64 = div_floor(4 * l, 146097);
        let l: i64 = l - div_floor(146097 * n + 3, 4);
        let i: i64 = div_floor(4000 * (l + 1), 1461001);
        let l: i64 = l - div_floor(1461 * i, 4) + 31;
        let j: i64 = div_floor(80 * l, 2447);
        let day: i64 = l - div_floor(2447 * j, 80);
        let l: i64 = div_floor(j, 11);
        let month: i64 = j + 2 - 12 * l;
        let year: i64 = 100 * (n - 49) + i + l;
        proof {
            reveal(civil_from_julian_day);
            lemma_day_round_trip(jd as int);
        }
        match SolarDate::from_ymd_opt(year as i32, month as u32, day as u32) {
            Some(found) => Ok(found),
            None => {
                let mut text = "Invalid date from JD ".to_owned();
                push_decimal(&mut text, jd as i64);
                Err(CalendarError::CalculationError(text))
            },
        }
    }

    /// The epoch day of a Gregorian date.
    pub fn gregorian_to_rd(date: SolarDate) -> (rd: i32)
        requires
            date.is_valid(),
        ensures
            rd == date.epoch_day(),
    {
        let jd = Self::gregorian_to_julian_day(date);
        proof {
            lemma_solar_date_range(date);
        }
        Self::julian_day_to_rd(jd)
    }

    /// The Gregorian date of an epoch day. Where the year of that date is
    /// more than a date can hold, the result is a calculation error.
    pub fn rd_to_gregorian(rd: i32) -> (date: Result<SolarDate, CalendarError>)
        requires
            rd + JULIAN_DAY_OF_EPOCH <= i32::MAX,
        ensures
            match date {
                Ok(found) => {
                    &&& has_solar_date(rd as int)
                    &&& found.is_valid()
                    &&& found.epoch_day() == rd
                    &&& civil_from_julian_day(rd + JULIAN_DAY_OF_EPOCH) == (
                        found.year as int,
                        found.month as int,
                        found.day as int,
                    )
                },
                Err(CalendarError::CalculationError(text)) => {
                    &&& !has_solar_date(rd as int)
                    &&& text@ == no_solar_date_text(rd as int)
                },
                Err(_) => false,
            },
    {
        let jd = Self::rd_to_julian_day(rd);
        proof {
            lemma_day_round_trip(jd as int);
        }
        Self::julian_day_to_gregorian(jd)
    }

    /// The Hebrew date of a Gregorian date.
    pub fn gregorian_to_hebrew(date: SolarDate) -> (hebrew: Result<HebrewDate, CalendarError>)
        requires
            date.is_valid(),
        ensures
            hebrew matches Ok(found) && found.is_valid() && found.epoch_day() == date.epoch_day()
                && found == hebrew_date_of(date.epoch_day()),
    {
        let rd = Self::gregorian_to_rd(date);
        proof {
            lemma_solar_date_range(date);
            lemma_day_in_supported_years(rd as int);
        }
        Self::rd_to_hebrew(rd)
    }

    /// The Gregorian date of a Hebrew date. A date in a month that its
    /// year does not have is a calculation error, and so is a date whose
    /// Gregorian year is more than a date can hold.
    pub fn hebrew_to_gregorian(hebrew: HebrewDate) -> (date: Result<SolarDate, CalendarError>)
        requires
            year_supported(hebrew.year as int),
        ensures
            match date {
                Ok(found) => {
                    &&& hebrew.has_month()
                    &&& has_solar_date(hebrew.epoch_day())
                    &&& found.is_valid()
                    &&& found.epoch_day() == hebrew.epoch_day()
                    &&& civil_from_julian_day(hebrew.epoch_day() + JULIAN_DAY_OF_EPOCH) == (
                        found.year as int,
                        found.month as int,
                        found.day as int,
                    )
                },
                Err(CalendarError::CalculationError(text)) => if !hebrew.has_month() {
                    text@ == missing_month_text()
                } else {
                    &&& !has_solar_date(hebrew.epoch_day())
                    &&& text@ == no_solar_date_text(hebrew.epoch_day())
                },
                Err(_) => false,
            },
    {
        match Self::hebrew_to_rd(hebrew) {
            Ok(rd) => {
                proof {
                    lemma_epoch_day_fits(hebrew);
                }
                Self::rd_to_gregorian(rd)
            },
            Err(error) => Err(error),
        }
    }

    /// The epoch day of a Julian day number.
    pub fn julian_day_to_rd(jd: i32) -> (rd: i32)
        requires
            jd - JULIAN_DAY_OF_EPOCH >= i32::MIN,
        ensures
            rd == jd - JULIAN_DAY_OF_EPOCH,
    {
        jd - 1721424
    }

    /// The Julian day number of an epoch day.
    pub fn rd_to_julian_day(rd: i32) -> (jd: i32)
        requires
            rd + JULIAN_DAY_OF_EPOCH <= i32::MAX,
        ensures
            jd == rd + JULIAN_DAY_OF_EPOCH,
    {
        rd + 1721424
    }
}

/// The epoch day of a date in a supported year, whatever its day, is far
/// inside 32 bits.
pub proof fn lemma_epoch_day_fits(date: HebrewDate)
    requires
        year_supported(date.year as int),
    ensures
        -2_001_000_000 <= date.epoch_day() <= 2_001_000_000,
{
    lemma_year_start_fits(date.year as int);
    let position = date.position();
    assert(0 <= position <= 12);
    lemma_position_bounds(date.year as int, position);
}

/// No month is shorter than 29 days or longer than 30.
pub proof fn lemma_position_bounds(year: int, position: int)
    requires
        0 <= position,
    ensures
        29 * position <= days_before_position(year, position) <= 30 * position,
    decreases position,
{
    if position > 0 {
        lemma_position_bounds(year, position - 1);
    }
}

/// The epoch days of the dates that exist lie within a hundred million
/// days of the epoch.
pub proof fn lemma_solar_date_range(date: SolarDate)
    requires
        date.is_valid(),
    ensures
        -96_000_000 <= date.epoch_day() <= 96_000_000,
{
    reveal(julian_day_formula);
    lemma_julian_day_formula(date.year as int, date.month as int, date.day as int);
}

/// Round trip of a Gregorian date: the date of its epoch day is the date
/// itself.
pub proof fn lemma_solar_round_trip(date: SolarDate)
    requires
        date.is_valid(),
    ensures
        civil_from_julian_day(date.epoch_day() + JULIAN_DAY_OF_EPOCH) == (
            date.year as int,
            date.month as int,
            date.day as int,
        ),
{
    lemma_date_round_trip(date.year as int, date.month as int, date.day as int);
}

/// A valid date lies in its month: after the days before the month and
/// before the days of the months that follow.
pub proof fn lemma_date_in_month(date: HebrewDate)
    requires
        date.is_valid(),
    ensures
        0 <= date.position() < months_in_year(date.year as int),
        year_start(date.year as int) + days_before_position(date.year as int, date.position())
            <= date.epoch_day() < year_start(date.year as int) + days_before_position(
            date.year as int,
            date.position() + 1,
        ),
        year_start(date.year as int) <= date.epoch_day() < year_start(date.year + 1),
{
    let year = date.year as int;
    let position = date.position();
    assert(month_at(year, position) == date.month.number(is_leap_year(year)));
    lemma_position_bounds(year, position);
    lemma_days_before_position_increasing(year, position + 1, months_in_year(year));
    lemma_months_fill_year(year);
}

/// Two valid Hebrew dates on one epoch day are one date.
pub proof fn lemma_hebrew_date_unique(a: HebrewDate, b: HebrewDate)
    requires
        a.is_valid(),
        b.is_valid(),
        a.epoch_day() == b.epoch_day(),
    ensures
        a == b,
{
    lemma_date_in_month(a);
    lemma_date_in_month(b);
    if a.year < b.year {
        lemma_year_start_span(a.year + 1, b.year as int);
    }
    if b.year < a.year {
        lemma_year_start_span(b.year + 1, a.year as int);
    }
    let year = a.year as int;
    if a.position() < b.position() {
        lemma_days_before_position_increasing(year, a.position() + 1, b.position());
    }
    if b.position() < a.position() {
        lemma_days_before_position_increasing(year, b.position() + 1, a.position());
    }
}

/// Round trip of a Hebrew date: the date that falls on the epoch day of
/// a valid date is that date.
pub proof fn lemma_hebrew_round_trip(date: HebrewDate)
    requires
        date.is_valid(),
    ensures
        hebrew_date_of(date.epoch_day()) == date,
{
    lemma_hebrew_date_unique(hebrew_date_of(date.epoch_day()), date);
}

/// The epoch days within ninety million days of the epoch have a
/// Gregorian date that a date can hold.
pub proof fn lemma_has_solar_date(epoch_day: int)
    requires
        -90_000_000 <= epoch_day <= 90_000_000,
    ensures
        has_solar_date(epoch_day),
{
    reveal(civil_from_julian_day);
}

/// Rosh Hashanah falls on a Monday, a Tuesday, a Thursday or a Shabbat.
pub proof fn lemma_rosh_hashanah_weekday(year: int)
    ensures
        ({
            let weekday = weekday_of(year_start(year));
            weekday == 1 || weekday == 2 || weekday == 4 || weekday == 6
        }),
{
    lemma_year_start_weekday(year);
}

/// The epoch days within 1,700 million days of the epoch fall in
/// supported years.
pub proof fn lemma_day_in_supported_years(epoch_day: int)
    requires
        -1_700_000_000 <= epoch_day <= 1_700_000_000,
    ensures
        in_supported_years(epoch_day),
{
    lemma_first_year_start();
    lemma_year_start_span(MIN_HEBREW_YEAR as int, 1);
    lemma_year_start_span(1, MAX_HEBREW_YEAR + 1);
}

/// The epoch day of a valid date falls in a supported year, and the
/// date is the date of that day.
pub proof fn lemma_valid_date_day(date: HebrewDate)
    requires
        date.is_valid(),
    ensures
        in_supported_years(date.epoch_day()),
        hebrew_date_of(date.epoch_day()) == date,
{
    lemma_date_in_month(date);
    lemma_year_start_span(MIN_HEBREW_YEAR as int, date.year as int);
    lemma_year_start_span(date.year + 1, MAX_HEBREW_YEAR + 1);
    lemma_hebrew_round_trip(date);
}

} // verus!
