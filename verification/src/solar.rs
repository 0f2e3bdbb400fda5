//! Days of the proleptic Gregorian calendar, as `chrono` knows them.

use vstd::prelude::*;
use chrono::Datelike;
use crate::civil::{civil_date_exists, julian_day_number};
use crate::text::{natural_text, two_digits};

verus! {

/// The first year that a `chrono::NaiveDate` can hold.
pub const MIN_CIVIL_YEAR: i32 = -262143;

/// The last year that a `chrono::NaiveDate` can hold.
pub const MAX_CIVIL_YEAR: i32 = 262142;

/// The Julian day number of epoch day 0, a Saturday.
pub const JULIAN_DAY_OF_EPOCH: i32 = 1721424;

/// A day of the proleptic Gregorian calendar: what the conversions read
/// of a `chrono::NaiveDate`. Year 0 is 1 BCE.
#[derive(Clone, Copy, Debug, PartialEq, Eq, Structural)]
pub struct SolarDate {
    pub year: i32,
    pub month: u32,
    pub day: u32,
}

/// `chrono::ParseError`: why `chrono` could not read a date or a time
/// of day. Nothing is known of what is inside.
#[verifier::external_type_specification]
#[verifier::external_body]
pub struct ExParseError(chrono::ParseError);

/// The date that `chrono::NaiveDate::parse_from_str` reads from `text`
/// with the format `%Y-%m-%d`, as year, month and day; `None` where it
/// reports an error.
pub uninterp spec fn date_parsed_by_format(text: Seq<char>) -> Option<(int, int, int)>;

/// The date that `chrono::NaiveDate`'s `FromStr` reads from `text`, as
/// year, month and day; `None` where it reports an error.
pub uninterp spec fn date_parsed_from_str(text: Seq<char>) -> Option<(int, int, int)>;

/// The year as `chrono` prints it: four digits from 0 to 9999, and
/// otherwise a sign and at least four digits.
pub open spec fn year_text(year: int) -> Seq<char> {
    if 0 <= year <= 9999 {
        two_digits(year / 100) + two_digits(year % 100)
    } else {
        let magnitude = if year < 0 {
            -year
        } else {
            year
        };
        let sign = if year < 0 {
            '-'
        } else {
            '+'
        };
        if magnitude <= 9999 {
            seq![sign] + two_digits(magnitude / 100) + two_digits(magnitude % 100)
        } else {
            seq![sign] + natural_text(magnitude as nat)
        }
    }
}

/// A date in the form `YYYY-MM-DD`.
pub open spec fn iso_date_text(year: int, month: int, day: int) -> Seq<char> {
    year_text(year) + seq!['-'] + two_digits(month) + seq!['-'] + two_digits(day)
}

impl SolarDate {
    /// Whether this is a day of the calendar that `chrono` can hold.
    pub open spec fn is_valid(self) -> bool {
        &&& MIN_CIVIL_YEAR <= self.year <= MAX_CIVIL_YEAR
        &&& civil_date_exists(self.year as int, self.month as int, self.day as int)
    }

    /// The Julian day number of this day.
    pub open spec fn julian_day(self) -> int {
        julian_day_number(self.year as int, self.month as int, self.day as int)
    }

    /// The epoch day of this day: the count of days from a fixed Saturday.
    pub open spec fn epoch_day(self) -> int {
        self.julian_day() - JULIAN_DAY_OF_EPOCH
    }

    /// The date with this year, month and day, if there is one.
    pub fn from_ymd_opt(year: i32, month: u32, day: u32) -> (date: Option<SolarDate>)
        ensures
            date == (if (SolarDate { year, month, day }).is_valid() {
                Some(SolarDate { year, month, day })
            } else {
                None
            }),
    {
        if date_exists(year, month, day) {
            Some(SolarDate { year, month, day })
        } else {
            None
        }
    }

    /// The year; year 0 is 1 BCE.
    pub fn year(&self) -> (year: i32)
        ensures
            year == self.year,
    {
        self.year
    }

    /// The month, from 1 for January.
    pub fn month(&self) -> (month: u32)
        ensures
            month == self.month,
    {
        self.month
    }

    /// The day of the month, from 1.
    pub fn day(&self) -> (day: u32)
        ensures
            day == self.day,
    {
        self.day
    }

    /// The date in the form `YYYY-MM-DD`, with a sign before a year that
    /// is negative or has more than four digits.
    pub fn to_iso_string(&self) -> (text: String)
        requires
            self.is_valid(),
        ensures
            text@ == iso_date_text(self.year as int, self.month as int, self.day as int),
    {
        date_text(self.year, self.month, self.day)
    }
}

/// Calls `chrono::NaiveDate::from_ymd_opt` and says whether it found a
/// date. By its documentation it finds none if the day does not exist in
/// the calendar, if month or day is invalid, or if the year is out of
/// `NaiveDate`'s range.
#[verifier::external_body]
fn date_exists(year: i32, month: u32, day: u32) -> (exists: bool)
    ensures
        exists == (MIN_CIVIL_YEAR <= year <= MAX_CIVIL_YEAR && civil_date_exists(
            year as int,
            month as int,
            day as int,
        )),
{
    chrono::NaiveDate::from_ymd_opt(year, month, day).is_some()
}

/// Prints the date through `chrono::NaiveDate`'s `Display`: the year in
/// four digits, or with a sign if it is outside 0 to 9999, then month and
/// day in two digits each, with hyphens between.
#[verifier::external_body]
fn date_text(year: i32, month: u32, day: u32) -> (text: String)
    requires
        MIN_CIVIL_YEAR <= year <= MAX_CIVIL_YEAR,
        civil_date_exists(year as int, month as int, day as int),
    ensures
        text@ == iso_date_text(year as int, month as int, day as int),
{
    chrono::NaiveDate::from_ymd_opt(year, month, day).map_or(
        String::new(),
        |date| date.to_string(),
    )
}

/// Reads a date with `chrono::NaiveDate::parse_from_str` and the format
/// `%Y-%m-%d`. What comes back is a date that exists.
#[verifier::external_body]
pub(crate) fn parse_date_by_format(text: &str) -> (parsed: Result<SolarDate, chrono::ParseError>)
    ensures
        match parsed {
            Ok(date) => date.is_valid() && date_parsed_by_format(text@) == Some(
                (date.year as int, date.month as int, date.day as int),
            ),
            Err(_) => date_parsed_by_format(text@) is None,
        },
{
    chrono::NaiveDate::parse_from_str(text, "%Y-%m-%d").map(
        |date| SolarDate { year: date.year(), month: date.month(), day: date.day() },
    )
}

/// Reads a date with `chrono::NaiveDate`'s `FromStr`. What comes back is
/// a date that exists.
#[verifier::external_body]
pub(crate) fn parse_date_from_str(text: &str) -> (parsed: Result<SolarDate, chrono::ParseError>)
    ensures
        match parsed {
            Ok(date) => date.is_valid() && date_parsed_from_str(text@) == Some(
                (date.year as int, date.month as int, date.day as int),
            ),
            Err(_) => date_parsed_from_str(text@) is None,
        },
{
    text.parse::<chrono::NaiveDate>().map(
        |date| SolarDate { year: date.year(), month: date.month(), day: date.day() },
    )
}

/// The message of a `chrono::ParseError`, through its `Display`.
#[verifier::external_body]
pub(crate) fn parse_error_text(error: &chrono::ParseError) -> (text: String) {
    error.to_string()
}

} // verus!
