//! Hebrew calendar arithmetic: conversion between the proleptic Gregorian
//! calendar and the fixed arithmetic Hebrew calendar, the annual cycle of
//! observances, the weekly Torah reading and the halachic times of day.

use vstd::prelude::*;

pub mod arith;
pub mod calendar;
pub mod civil;
pub mod holidays;
pub mod molad;
pub mod parsha;
pub mod solar;
pub mod text;
pub mod zmanim;

pub use calendar::{DateConverter, GregorianDate, HebrewDate, HebrewMonth, YearType};
pub use holidays::{Holiday, HolidayCalculator};
pub use parsha::{Parsha, ParshaCalculator};
pub use solar::SolarDate;
pub use zmanim::{CalculatedTimes, ClockTime, SolarEvents, Zmanim, ZmanimCalculator};

use calendar::{
    display_string, display_text, hebrew_date_of, lemma_date_in_month, lemma_has_solar_date,
    weekday_of,
};
use civil::{julian_day_formula, lemma_julian_day_formula};
use holidays::holidays_on;
use molad::{lemma_first_year_start, lemma_year_start_span, year_start};
use parsha::{
    bereshit_shabbat, reading_for_shabbat, reading_reachable, shabbat_date_of,
    shabbat_on_or_after, shabbat_reachable,
};
use solar::{
    date_parsed_by_format, date_parsed_from_str, iso_date_text, parse_date_by_format,
    parse_date_from_str, parse_error_text,
};
use zmanim::{candle_time, clock_text, derived_times};

verus! {

/// Errors that the calendar can report.
#[derive(Debug, Clone, PartialEq)]
pub enum CalendarError {
    /// The date lies outside the supported years, 0 to 2050.
    DateOutOfRange(String),
    /// The text is not a calendar date.
    InvalidDateFormat(String),
    /// A value reached the computation that it cannot work on.
    CalculationError(String),
}

impl CalendarError {
    /// The message of the error, with the kind of error before it.
    pub fn message(&self) -> (text: String)
        ensures
            text@ == (match *self {
                CalendarError::DateOutOfRange(detail) => {
                    "Date out of supported range (0 AD to 2050 AD): "@ + detail@
                },
                CalendarError::InvalidDateFormat(detail) => "Invalid date format: "@ + detail@,
                CalendarError::CalculationError(detail) => "Calculation error: "@ + detail@,
            }),
    {
        match self {
            CalendarError::DateOutOfRange(detail) => {
                let mut text = "Date out of supported range (0 AD to 2050 AD): ".to_owned();
                text.push_str(detail.as_str());
                text
            },
            CalendarError::InvalidDateFormat(detail) => {
                let mut text = "Invalid date format: ".to_owned();
                text.push_str(detail.as_str());
                text
            },
            CalendarError::CalculationError(detail) => {
                let mut text = "Calculation error: ".to_owned();
                text.push_str(detail.as_str());
                text
            },
        }
    }
}

/// The first Gregorian year of the supported horizon.
pub const MIN_SUPPORTED_YEAR: i32 = 0;

/// The last Gregorian year of the supported horizon.
pub const MAX_SUPPORTED_YEAR: i32 = 2050;

/// All that the calendar says of one day.
#[derive(Debug, Clone, PartialEq)]
pub struct DailyData {
    /// The Gregorian date
    pub gregorian: GregorianDate,
    /// The Hebrew date
    pub hebrew: HebrewDate,
    /// The weekly reading, on a Shabbat
    pub parsha: Option<Parsha>,
    /// The observances of the day
    pub holidays: Vec<Holiday>,
    /// The times of the day, where its solar events were given
    pub zmanim: Option<Zmanim>,
    /// The time of candle lighting, where candles are lit
    pub candle_lighting: Option<String>,
    /// Whether the day is a Shabbat or a Yom Tov
    pub is_yom_tov: bool,
}

/// Whether one of the observances is a Yom Tov.
pub open spec fn any_yom_tov(holidays: Seq<Holiday>) -> bool {
    exists|i: int| 0 <= i < holidays.len() && (#[trigger] holidays[i]).yom_tov()
}

/// Whether a date lies in the supported horizon.
pub open spec fn in_horizon(date: SolarDate) -> bool {
    MIN_SUPPORTED_YEAR <= date.year <= MAX_SUPPORTED_YEAR
}

/// The message for a date outside the horizon.
pub open spec fn out_of_range_text(date: SolarDate) -> Seq<char> {
    "Date "@ + iso_date_text(date.year as int, date.month as int, date.day as int)
        + " is outside supported range"@
}

/// Whether `candle` is the time of candle lighting of a day: before a
/// Shabbat or a Yom Tov and on one, `offset` minutes before the sunset,
/// where there is a sunset; on other days there is none.
pub open spec fn is_candle_lighting(
    candle: Option<String>,
    lit: bool,
    events: Option<SolarEvents>,
    offset: int,
) -> bool {
    match events {
        Some(SolarEvents { sunset: Some(sunset), .. }) if lit => {
            candle matches Some(text) && text@ == clock_text(
                candle_time(sunset, offset).minutes as int,
            )
        },
        _ => candle is None,
    }
}

impl DailyData {
    /// Whether this is the record of the day `date`, with the times that
    /// follow from `events` where they are given.
    pub open spec fn is_record_of(
        self,
        date: SolarDate,
        events: Option<SolarEvents>,
        offset: int,
    ) -> bool {
        let weekday = weekday_of(date.epoch_day());
        &&& self.gregorian.year == date.year
        &&& self.gregorian.month == date.month
        &&& self.gregorian.day == date.day
        &&& self.gregorian.iso_string@ == iso_date_text(
            date.year as int,
            date.month as int,
            date.day as int,
        )
        &&& self.gregorian.display@ == display_text(
            date.year as int,
            date.month as int,
            date.day as int,
        )
        &&& self.hebrew == hebrew_date_of(date.epoch_day())
        &&& self.parsha == (if weekday == 6 {
            Some(reading_for_shabbat(self.hebrew))
        } else {
            None
        })
        &&& self.holidays@ == holidays_on(self.hebrew)
        &&& self.is_yom_tov == (any_yom_tov(self.holidays@) || weekday == 6)
        &&& match events {
            Some(given) => self.zmanim matches Some(shown) && shown.shows_times(
                date,
                derived_times(given),
            ),
            None => self.zmanim is None,
        }
        &&& is_candle_lighting(
            self.candle_lighting,
            self.is_yom_tov || weekday == 5,
            events,
            offset,
        )
    }
}

/// The entry point of the calendar.
pub struct HebrewCalendar;

impl HebrewCalendar {
    /// All that the calendar says of the day `date`. The solar events of
    /// the day are given where a place was chosen; the times of the day
    /// follow from them. A date outside the years 0 to 2050 is refused.
    pub fn calculate_day(
        date: SolarDate,
        events: Option<SolarEvents>,
        candle_offset_minutes: i64,
    ) -> (day: Result<DailyData, CalendarError>)
        requires
            date.is_valid(),
            events matches Some(given) ==> given.is_valid(),
        ensures
            match day {
                Ok(data) => in_horizon(date) && data.is_record_of(
                    date,
                    events,
                    candle_offset_minutes as int,
                ),
                Err(CalendarError::DateOutOfRange(text)) => !in_horizon(date) && text@
                    == out_of_range_text(date),
                Err(_) => false,
            },
    {
        if date.year < MIN_SUPPORTED_YEAR || date.year > MAX_SUPPORTED_YEAR {
            let mut text = "Date ".to_owned();
            text.push_str(date.to_iso_string().as_str());
            text.push_str(" is outside supported range");
            return Err(CalendarError::DateOutOfRange(text));
        }
        let hebrew = match DateConverter::gregorian_to_hebrew(date) {
            Ok(found) => found,
            Err(error) => {
                return Err(error);
            },
        };
        proof {
            lemma_horizon(date, hebrew);
        }
        let weekday = hebrew.day_of_week();

        // the reading of the week, on a Shabbat
        let parsha = if weekday == 6 {
            match ParshaCalculator::get_parsha(&hebrew) {
                Ok(reading) => Some(reading),
                Err(error) => {
                    return Err(error);
                },
            }
        } else {
            None
        };

        // the observances
        let holidays = match HolidayCalculator::get_holidays(&hebrew) {
            Ok(list) => list,
            Err(error) => {
                return Err(error);
            },
        };
        let is_yom_tov = Self::has_yom_tov(&holidays) || weekday == 6;

        // the times of the day, and candle lighting before and on a
        // Shabbat or Yom Tov
        let (zmanim, candle_lighting) = match events {
            Some(given) => {
                let shown = match ZmanimCalculator::calculate(date, &given) {
                    Ok(shown) => shown,
                    Err(error) => {
                        return Err(error);
                    },
                };
                let candle = if is_yom_tov || weekday == 5 {
                    match given.sunset {
                        Some(sunset) => Some(
                            ZmanimCalculator::candle_time(sunset, candle_offset_minutes).to_text(),
                        ),
                        None => None,
                    }
                } else {
                    None
                };
                (Some(shown), candle)
            },
            None => (None, None),
        };
        Ok(
            DailyData {
                gregorian: GregorianDate::from(date),
                hebrew,
                parsha,
                holidays,
                zmanim,
                candle_lighting,
                is_yom_tov,
            },
        )
    }

    /// Whether one of the observances is a Yom Tov.
    fn has_yom_tov(holidays: &Vec<Holiday>) -> (found: bool)
        ensures
            found == any_yom_tov(holidays@),
    {
        let mut i: usize = 0;
        while i < holidays.len()
            invariant
                i <= holidays.len(),
                forall|j: int| 0 <= j < i ==> !(#[trigger] holidays@[j]).yom_tov(),
            decreases holidays.len() - i,
        {
            if holidays[i].is_yom_tov() {
                return true;
            }
            i = i + 1;
        }
        false
    }

    /// Reads a date in the form `YYYY-MM-DD`. A text that begins with a
    /// sign is read by the format, so that the year may be written with
    /// its sign; any other text is read as an ISO date.
    pub fn parse_date(date_str: &str) -> (date: Result<SolarDate, CalendarError>)
        ensures
            match date {
                Ok(found) => found.is_valid() && date_read_from(date_str@) == Some(
                    (found.year as int, found.month as int, found.day as int),
                ),
                Err(CalendarError::InvalidDateFormat(_)) => date_read_from(date_str@) is None,
                Err(_) => false,
            },
    {
        let signed = date_str.unicode_len() > 0 && (date_str.get_char(0) == '+'
            || date_str.get_char(0) == '-');
        if signed {
            Self::date_from_parse(parse_date_by_format(date_str))
        } else {
            Self::date_from_parse(parse_date_from_str(date_str))
        }
    }

    /// The date that was read, or the error of the calendar for a text
    /// that is no date.
    pub fn date_from_parse(parsed: Result<SolarDate, chrono::ParseError>) -> (date: Result<
        SolarDate,
        CalendarError,
    >)
        ensures
            match parsed {
                Ok(found) => date == Ok::<SolarDate, CalendarError>(found),
                Err(_) => date matches Err(CalendarError::InvalidDateFormat(_)),
            },
    {
        match parsed {
            Ok(found) => Ok(found),
            Err(error) => Err(CalendarError::InvalidDateFormat(parse_error_text(&error))),
        }
    }

    /// The text of a date for display. Year 0 is shown as 1 BCE.
    pub fn format_display_date(date: SolarDate) -> (text: String)
        ensures
            text@ == display_text(date.year as int, date.month as int, date.day as int),
    {
        display_string(date)
    }
}

/// The date that `parse_date` reads from a text: by the format if the
/// text begins with a sign, and as an ISO date if not.
pub open spec fn date_read_from(text: Seq<char>) -> Option<(int, int, int)> {
    if text.len() > 0 && (text[0] == '+' || text[0] == '-') {
        date_parsed_by_format(text)
    } else {
        date_parsed_from_str(text)
    }
}

/// In the horizon, all that the record of a day needs is within reach:
/// the Hebrew year is supported, and the Gregorian dates through which
/// the weekly reading is found can be held.
proof fn lemma_horizon(date: SolarDate, hebrew: HebrewDate)
    requires
        date.is_valid(),
        in_horizon(date),
        hebrew.is_valid(),
        hebrew.epoch_day() == date.epoch_day(),
    ensures
        1 <= hebrew.year <= 7000,
        weekday_of(hebrew.epoch_day()) == 6 ==> shabbat_date_of(hebrew) == hebrew,
        shabbat_reachable(hebrew),
        reading_reachable(hebrew),
{
    let year = hebrew.year as int;
    assert(-400 <= date.epoch_day() <= 750_000) by {
        reveal(julian_day_formula);
        lemma_julian_day_formula(date.year as int, date.month as int, date.day as int);
    }
    lemma_date_in_month(hebrew);
    lemma_first_year_start();
    if year < 1 {
        lemma_year_start_span(year + 1, 1);
    } else {
        lemma_year_start_span(1, year);
    }
    lemma_has_solar_date(hebrew.epoch_day());
    lemma_has_solar_date(shabbat_on_or_after(hebrew.epoch_day()));
    lemma_has_solar_date(year_start(year));
    lemma_has_solar_date(year_start(year) + 22);
    lemma_has_solar_date(bereshit_shabbat(year));
}

} // verus!
