//! The halachic times of a day, from the solar events of the day.
//!
//! Times of day are whole minutes on a clock that wraps at midnight. The
//! solar events themselves, which take the position of the sun, are found
//! outside this library and handed to it.

use vstd::prelude::*;
use chrono::Timelike;
use crate::arith::{div_floor, mod_floor};
use crate::solar::{iso_date_text, parse_error_text, SolarDate};
use crate::text::two_digits;
use crate::CalendarError;

verus! {

/// The minutes of a day.
pub const MINUTES_PER_DAY: u32 = 1440;

/// A time of day in whole minutes after midnight: what the rules read of
/// a `chrono::NaiveTime`.
#[derive(Clone, Copy, Debug, PartialEq, Eq, Structural)]
pub struct ClockTime {
    pub minutes: u32,
}

/// The times at which the sun reaches the heights that the rules name.
/// A time is absent where the sun does not reach that height on the day.
#[derive(Clone, Copy, Debug, PartialEq, Eq, Structural)]
pub struct SolarEvents {
    /// Dawn, the sun 16.1 degrees below the horizon
    pub alot: Option<ClockTime>,
    /// The sun 11.5 degrees below the horizon
    pub misheyakir: Option<ClockTime>,
    pub sunrise: Option<ClockTime>,
    pub sunset: Option<ClockTime>,
    /// Nightfall, the sun 8.5 degrees below the horizon
    pub tzeit: Option<ClockTime>,
}

/// All the times of a day, as times of day.
#[derive(Clone, Copy, Debug, PartialEq, Eq, Structural)]
pub struct CalculatedTimes {
    pub alot: Option<ClockTime>,
    pub misheyakir: Option<ClockTime>,
    pub sunrise: Option<ClockTime>,
    pub sof_shema_mga: Option<ClockTime>,
    pub sof_shema_gra: Option<ClockTime>,
    pub sof_tefila_mga: Option<ClockTime>,
    pub sof_tefila_gra: Option<ClockTime>,
    pub chatzot: Option<ClockTime>,
    pub mincha_gedola: Option<ClockTime>,
    pub mincha_ketana: Option<ClockTime>,
    pub plag: Option<ClockTime>,
    pub sunset: Option<ClockTime>,
    pub tzeit: Option<ClockTime>,
    pub tzeit_72: Option<ClockTime>,
}

/// The times of a day as text, each in the form `HH:MM`.
#[derive(Debug, Clone, PartialEq)]
pub struct Zmanim {
    pub date: String,
    /// Dawn
    pub alot_hashachar: Option<String>,
    /// Earliest tallit
    pub misheyakir: Option<String>,
    pub sunrise: Option<String>,
    /// Latest shema, by the reckoning of the Magen Avraham
    pub sof_zman_shema_mga: Option<String>,
    /// Latest shema, by the reckoning of the Gra
    pub sof_zman_shema_gra: Option<String>,
    /// Latest shacharit, Magen Avraham
    pub sof_zman_tefila_mga: Option<String>,
    /// Latest shacharit, Gra
    pub sof_zman_tefila_gra: Option<String>,
    /// Midday
    pub chatzot: Option<String>,
    /// Earliest mincha
    pub mincha_gedola: Option<String>,
    /// Preferred mincha
    pub mincha_ketana: Option<String>,
    pub plag_hamincha: Option<String>,
    pub sunset: Option<String>,
    /// Nightfall
    pub tzeit_hakochavim: Option<String>,
    /// 72 minutes after sunset
    pub tzeit_72_min: Option<String>,
}

/// The time of day that `chrono::NaiveTime::parse_from_str` reads from
/// `text` with the format `%H:%M`, as hour and minute; `None` where it
/// reports an error.
pub uninterp spec fn clock_parsed(text: Seq<char>) -> Option<(int, int)>;

/// A time of day, `minutes` after midnight, in the form `HH:MM`.
pub open spec fn clock_text(minutes: int) -> Seq<char> {
    two_digits(minutes / 60) + seq![':'] + two_digits(minutes % 60)
}

/// The time of day that lies `offset` minutes after the time `anchor`,
/// on a clock that wraps at midnight.
pub open spec fn clock_after(anchor: int, offset: int) -> ClockTime {
    ClockTime { minutes: ((anchor + offset) % 1440) as u32 }
}

/// The time at the part `numerator / denominator` of a day that begins
/// at `start` and lasts `length` minutes, in whole minutes.
pub open spec fn proportional_time(
    start: int,
    length: int,
    numerator: int,
    denominator: int,
) -> ClockTime {
    clock_after(start, (length * numerator) / denominator)
}

/// The time of candle lighting: `offset` minutes before sunset.
pub open spec fn candle_time(sunset: ClockTime, offset: int) -> ClockTime {
    clock_after(sunset.minutes as int, -offset)
}

/// All the times of a day, from its solar events. The times between
/// sunrise and sunset are there only when both of these are. The day of
/// the Gra lasts from sunrise to sunset; the day of the Magen Avraham
/// from 72 minutes before sunrise to 72 minutes after sunset.
pub open spec fn derived_times(events: SolarEvents) -> CalculatedTimes {
    if events.sunrise is Some && events.sunset is Some {
        let sunrise = events.sunrise->0.minutes as int;
        let sunset = events.sunset->0.minutes as int;
        let day = sunset - sunrise;
        let dawn = clock_after(sunrise, -72);
        let dusk = clock_after(sunset, 72);
        let long_day = dusk.minutes - dawn.minutes;
        CalculatedTimes {
            alot: events.alot,
            misheyakir: events.misheyakir,
            sunrise: events.sunrise,
            sof_shema_mga: Some(proportional_time(dawn.minutes as int, long_day, 1, 4)),
            sof_shema_gra: Some(proportional_time(sunrise, day, 1, 4)),
            sof_tefila_mga: Some(proportional_time(dawn.minutes as int, long_day, 1, 3)),
            sof_tefila_gra: Some(proportional_time(sunrise, day, 1, 3)),
            chatzot: Some(proportional_time(sunrise, day, 1, 2)),
            mincha_gedola: Some(proportional_time(sunrise, day, 13, 24)),
            mincha_ketana: Some(proportional_time(sunrise, day, 19, 24)),
            plag: Some(proportional_time(sunrise, day, 43, 48)),
            sunset: events.sunset,
            tzeit: events.tzeit,
            tzeit_72: Some(dusk),
        }
    } else {
        CalculatedTimes {
            alot: events.alot,
            misheyakir: events.misheyakir,
            sunrise: events.sunrise,
            sof_shema_mga: None,
            sof_shema_gra: None,
            sof_tefila_mga: None,
            sof_tefila_gra: None,
            chatzot: None,
            mincha_gedola: None,
            mincha_ketana: None,
            plag: None,
            sunset: events.sunset,
            tzeit: events.tzeit,
            tzeit_72: None,
        }
    }
}

/// Whether `text` shows the time `time`: the same text, or both absent.
pub open spec fn shows(text: Option<String>, time: Option<ClockTime>) -> bool {
    match (text, time) {
        (Some(shown), Some(at)) => shown@ == clock_text(at.minutes as int),
        (None, None) => true,
        _ => false,
    }
}

/// Whether a time that is there is a time of day.
pub open spec fn is_time_of_day(time: Option<ClockTime>) -> bool {
    time matches Some(at) ==> at.is_valid()
}

impl ClockTime {
    /// Whether the time lies within the day.
    pub open spec fn is_valid(self) -> bool {
        self.minutes < MINUTES_PER_DAY
    }

    /// The time of day `hour:minute`, if there is one.
    pub fn from_hm_opt(hour: u32, minute: u32) -> (time: Option<ClockTime>)
        ensures
            time == (if hour < 24 && minute < 60 {
                Some(ClockTime { minutes: (60 * hour + minute) as u32 })
            } else {
                None
            }),
    {
        if hour < 24 && minute < 60 {
            Some(ClockTime { minutes: 60 * hour + minute })
        } else {
            None
        }
    }

    /// The time of day that lies `total` minutes after midnight, on a
    /// clock that wraps at midnight: a count of minutes that is negative
    /// or more than a day comes back into the day.
    pub fn from_minutes(total: i64) -> (time: ClockTime)
        ensures
            time == clock_after(0, total as int),
            time.is_valid(),
    {
        ClockTime { minutes: mod_floor(total, 1440) as u32 }
    }

    /// The hour of the day, from 0 to 23.
    pub fn hour(&self) -> (hour: u32)
        ensures
            hour == self.minutes / 60,
    {
        self.minutes / 60
    }

    /// The minute of the hour.
    pub fn minute(&self) -> (minute: u32)
        ensures
            minute == self.minutes % 60,
    {
        self.minutes % 60
    }

    /// The time `offset` minutes after this one, on a clock that wraps at
    /// midnight.
    pub fn plus_minutes(&self, offset: i64) -> (time: ClockTime)
        requires
            self.is_valid(),
        ensures
            time == clock_after(self.minutes as int, offset as int),
            time.is_valid(),
    {
        let within_day = mod_floor(offset, 1440);
        ClockTime { minutes: mod_floor(self.minutes as i64 + within_day, 1440) as u32 }
    }

    /// The time in the form `HH:MM`.
    pub fn to_text(&self) -> (text: String)
        requires
            self.is_valid(),
        ensures
            text@ == clock_text(self.minutes as int),
    {
        clock_string(self.minutes / 60, self.minutes % 60)
    }
}

impl SolarEvents {
    /// Whether each event that is there is a time of day.
    pub open spec fn is_valid(self) -> bool {
        &&& is_time_of_day(self.alot)
        &&& is_time_of_day(self.misheyakir)
        &&& is_time_of_day(self.sunrise)
        &&& is_time_of_day(self.sunset)
        &&& is_time_of_day(self.tzeit)
    }
}

impl Zmanim {
    /// Whether the record shows the date and each of the times.
    pub open spec fn shows_times(self, date: SolarDate, times: CalculatedTimes) -> bool {
        &&& self.date@ == iso_date_text(date.year as int, date.month as int, date.day as int)
        &&& shows(self.alot_hashachar, times.alot)
        &&& shows(self.misheyakir, times.misheyakir)
        &&& shows(self.sunrise, times.sunrise)
        &&& shows(self.sof_zman_shema_mga, times.sof_shema_mga)
        &&& shows(self.sof_zman_shema_gra, times.sof_shema_gra)
        &&& shows(self.sof_zman_tefila_mga, times.sof_tefila_mga)
        &&& shows(self.sof_zman_tefila_gra, times.sof_tefila_gra)
        &&& shows(self.chatzot, times.chatzot)
        &&& shows(self.mincha_gedola, times.mincha_gedola)
        &&& shows(self.mincha_ketana, times.mincha_ketana)
        &&& shows(self.plag_hamincha, times.plag)
        &&& shows(self.sunset, times.sunset)
        &&& shows(self.tzeit_hakochavim, times.tzeit)
        &&& shows(self.tzeit_72_min, times.tzeit_72)
    }
}

/// Prints a time of day through `chrono::NaiveTime::format` with the
/// format `%H:%M`: hour and minute, each in two digits, with a colon
/// between.
#[verifier::external_body]
fn clock_string(hour: u32, minute: u32) -> (text: String)
    requires
        hour < 24,
        minute < 60,
    ensures
        text@ == two_digits(hour as int) + seq![':'] + two_digits(minute as int),
{
    chrono::NaiveTime::from_hms_opt(hour, minute, 0).map_or(
        String::new(),
        |time| time.format("%H:%M").to_string(),
    )
}

/// Reads a time of day with `chrono::NaiveTime::parse_from_str` and the
/// format `%H:%M`. What comes back is a time of day.
#[verifier::external_body]
fn parse_clock(text: &str) -> (parsed: Result<(u32, u32), chrono::ParseError>)
    ensures
        match parsed {
            Ok((hour, minute)) => hour < 24 && minute < 60 && clock_parsed(text@) == Some(
                (hour as int, minute as int),
            ),
            Err(_) => clock_parsed(text@) is None,
        },
{
    chrono::NaiveTime::parse_from_str(text, "%H:%M").map(|time| (time.hour(), time.minute()))
}

/// The halachic times of a day.
pub struct ZmanimCalculator;

impl ZmanimCalculator {
    /// The times of a day as text, from its solar events.
    pub fn calculate(date: SolarDate, events: &SolarEvents) -> (zmanim: Result<
        Zmanim,
        CalendarError,
    >)
        requires
            date.is_valid(),
            events.is_valid(),
        ensures
            zmanim matches Ok(shown) && shown.shows_times(date, derived_times(*events)),
    {
        let times = Self::calculate_times(events);
        Ok(
            Zmanim {
                date: date.to_iso_string(),
                alot_hashachar: Self::time_text(times.alot),
                misheyakir: Self::time_text(times.misheyakir),
                sunrise: Self::time_text(times.sunrise),
                sof_zman_shema_mga: Self::time_text(times.sof_shema_mga),
                sof_zman_shema_gra: Self::time_text(times.sof_shema_gra),
                sof_zman_tefila_mga: Self::time_text(times.sof_tefila_mga),
                sof_zman_tefila_gra: Self::time_text(times.sof_tefila_gra),
                chatzot: Self::time_text(times.chatzot),
                mincha_gedola: Self::time_text(times.mincha_gedola),
                mincha_ketana: Self::time_text(times.mincha_ketana),
                plag_hamincha: Self::time_text(times.plag),
                sunset: Self::time_text(times.sunset),
                tzeit_hakochavim: Self::time_text(times.tzeit),
                tzeit_72_min: Self::time_text(times.tzeit_72),
            },
        )
    }

    /// A time that may be absent, as text.
    fn time_text(time: Option<ClockTime>) -> (text: Option<String>)
        requires
            is_time_of_day(time),
        ensures
            shows(text, time),
    {
        match time {
            Some(at) => Some(at.to_text()),
            None => None,
        }
    }

    /// The time at the part `numerator / denominator` of a day that
    /// begins at `start` and lasts `length` minutes.
    fn proportional(start: ClockTime, length: i64, numerator: i64, denominator: i64) -> (time:
        ClockTime)
        requires
            start.is_valid(),
            -1440 < length < 1440,
            0 < numerator <= denominator <= 48,
        ensures
            time == proportional_time(
                start.minutes as int,
                length as int,
                numerator as int,
                denominator as int,
            ),
            time.is_valid(),
    {
        assert(-1440 * 48 <= length * numerator <= 1440 * 48) by (nonlinear_arith)
            requires
                -1440 < length < 1440,
                0 < numerator <= 48,
        ;
        start.plus_minutes(div_floor(length * numerator, denominator))
    }

    /// The time of candle lighting, `offset_minutes` before sunset.
    /// Without a sunset there is none; a sunset that is no time of day
    /// in the form `HH:MM` is a calculation error.
    pub fn candle_lighting(zmanim: &Zmanim, offset_minutes: i64) -> (candle: Result<
        Option<String>,
        CalendarError,
    >)
        ensures
            match zmanim.sunset {
                None => candle == Ok::<Option<String>, CalendarError>(None),
                Some(sunset) => match clock_parsed(sunset@) {
                    Some((hour, minute)) => candle matches Ok(Some(text)) && text@ == clock_text(
                        (60 * hour + minute - offset_minutes) % 1440,
                    ),
                    None => candle matches Err(CalendarError::CalculationError(_)),
                },
            },
    {
        match &zmanim.sunset {
            None => Ok(None),
            Some(sunset) => {
                let read = match parse_clock(sunset.as_str()) {
                    Ok((hour, minute)) => Ok(ClockTime { minutes: 60 * hour + minute }),
                    Err(error) => Err(error),
                };
                Self::candle_lighting_from(read, offset_minutes)
            },
        }
    }

    /// The time of candle lighting, from the sunset as it was read: the
    /// text of the time `offset_minutes` before it, or a calculation
    /// error where the sunset could not be read.
    pub fn candle_lighting_from(
        sunset: Result<ClockTime, chrono::ParseError>,
        offset_minutes: i64,
    ) -> (candle: Result<Option<String>, CalendarError>)
        requires
            sunset matches Ok(time) ==> time.is_valid(),
        ensures
            match sunset {
                Ok(time) => candle matches Ok(Some(text)) && text@ == clock_text(
                    candle_time(time, offset_minutes as int).minutes as int,
                ),
                Err(_) => candle matches Err(CalendarError::CalculationError(_)),
            },
    {
        match sunset {
            Ok(time) => Ok(Some(Self::candle_time(time, offset_minutes).to_text())),
            Err(error) => Err(CalendarError::CalculationError(parse_error_text(&error))),
        }
    }

    /// The time `offset_minutes` before sunset.
    pub fn candle_time(sunset: ClockTime, offset_minutes: i64) -> (time: ClockTime)
        requires
            sunset.is_valid(),
        ensures
            time == candle_time(sunset, offset_minutes as int),
            time.is_valid(),
    {
        let back = mod_floor(offset_minutes, 1440);
        sunset.plus_minutes(-back)
    }

    /// All the times of a day, from its solar events.
    pub fn calculate_times(events: &SolarEvents) -> (times: CalculatedTimes)
        requires
            events.is_valid(),
        ensures
            times == derived_times(*events),
            is_time_of_day(times.alot),
            is_time_of_day(times.misheyakir),
            is_time_of_day(times.sunrise),
            is_time_of_day(times.sof_shema_mga),
            is_time_of_day(times.sof_shema_gra),
            is_time_of_day(times.sof_tefila_mga),
            is_time_of_day(times.sof_tefila_gra),
            is_time_of_day(times.chatzot),
            is_time_of_day(times.mincha_gedola),
            is_time_of_day(times.mincha_ketana),
            is_time_of_day(times.plag),
            is_time_of_day(times.sunset),
            is_time_of_day(times.tzeit),
            is_time_of_day(times.tzeit_72),
    {
        match (events.sunrise, events.sunset) {
            (Some(sr), Some(ss)) => {
                // the day of the Gra, and its proportional hours
                let day_length: i64 = ss.minutes as i64 - sr.minutes as i64;
                // the day of the Magen Avraham, 72 minutes longer at each end
                let alot_72 = sr.plus_minutes(-72);
                let tzeit_72 = ss.plus_minutes(72);
                let day_length_mga: i64 = tzeit_72.minutes as i64 - alot_72.minutes as i64;
                CalculatedTimes {
                    alot: events.alot,
                    misheyakir: events.misheyakir,
                    sunrise: events.sunrise,
                    // three hours into the day
                    sof_shema_mga: Some(Self::proportional(alot_72, day_length_mga, 1, 4)),
                    sof_shema_gra: Some(Self::proportional(sr, day_length, 1, 4)),
                    // four hours
                    sof_tefila_mga: Some(Self::proportional(alot_72, day_length_mga, 1, 3)),
                    sof_tefila_gra: Some(Self::proportional(sr, day_length, 1, 3)),
                    // midday
                    chatzot: Some(Self::proportional(sr, day_length, 1, 2)),
                    // six hours and a half
                    mincha_gedola: Some(Self::proportional(sr, day_length, 13, 24)),
                    // nine hours and a half
                    mincha_ketana: Some(Self::proportional(sr, day_length, 19, 24)),
                    // ten hours and three quarters
                    plag: Some(Self::proportional(sr, day_length, 43, 48)),
                    sunset: events.sunset,
                    tzeit: events.tzeit,
                    tzeit_72: Some(tzeit_72),
                }
            },
            _ => CalculatedTimes {
                alot: events.alot,
                misheyakir: events.misheyakir,
                sunrise: events.sunrise,
                sof_shema_mga: None,
                sof_shema_gra: None,
                sof_tefila_mga: None,
                sof_tefila_gra: None,
                chatzot: None,
                mincha_gedola: None,
                mincha_ketana: None,
                plag: None,
                sunset: events.sunset,
                tzeit: events.tzeit,
                tzeit_72: None,
            },
        }
    }
}

/// A time that many minutes after `start`, where both lie in one day.
proof fn lemma_clock_after_within_day(start: int, offset: int)
    requires
        0 <= start,
        0 <= offset,
        start + offset < 1440,
    ensures
        clock_after(start, offset).minutes == start + offset,
{
}

/// On a day whose sun rises before it sets, the times of the Gra follow
/// each other from sunrise to sunset; midday lies strictly between the
/// two when at least two minutes do.
pub proof fn lemma_day_times_in_order(events: SolarEvents)
    requires
        events.is_valid(),
        events.sunrise matches Some(sunrise) && events.sunset matches Some(sunset)
            && sunrise.minutes < sunset.minutes,
    ensures
        ({
            let times = derived_times(events);
            let sunrise = events.sunrise->0.minutes;
            let sunset = events.sunset->0.minutes;
            &&& sunrise <= times.sof_shema_gra->0.minutes <= times.sof_tefila_gra->0.minutes
                <= times.chatzot->0.minutes <= times.mincha_gedola->0.minutes
                <= times.mincha_ketana->0.minutes <= times.plag->0.minutes <= sunset
            &&& sunset - sunrise >= 2 ==> sunrise < times.chatzot->0.minutes < sunset
        }),
{
    let sunrise = events.sunrise->0.minutes as int;
    let day = events.sunset->0.minutes - sunrise;
    assert(0 <= (day * 1) / 4 <= (day * 1) / 3 <= (day * 1) / 2 <= (day * 13) / 24 <= (day * 19)
        / 24 <= (day * 43) / 48 <= day);
    lemma_clock_after_within_day(sunrise, (day * 1) / 4);
    lemma_clock_after_within_day(sunrise, (day * 1) / 3);
    lemma_clock_after_within_day(sunrise, (day * 1) / 2);
    lemma_clock_after_within_day(sunrise, (day * 13) / 24);
    lemma_clock_after_within_day(sunrise, (day * 19) / 24);
    lemma_clock_after_within_day(sunrise, (day * 43) / 48);
}

/// Where dawn, sunrise, sunset and nightfall are handed in in this
/// order, and at least two minutes lie between sunrise and sunset, the
/// times of the day keep the order: dawn, sunrise, midday, sunset,
/// nightfall.
pub proof fn lemma_times_in_order(events: SolarEvents)
    requires
        events.is_valid(),
        events.alot matches Some(dawn) && events.sunrise matches Some(sunrise) && events.sunset
            matches Some(sunset) && events.tzeit matches Some(nightfall) && dawn.minutes
            < sunrise.minutes && sunrise.minutes + 2 <= sunset.minutes && sunset.minutes
            < nightfall.minutes,
    ensures
        ({
            let times = derived_times(events);
            times.alot->0.minutes < times.sunrise->0.minutes < times.chatzot->0.minutes
                < times.sunset->0.minutes < times.tzeit->0.minutes
        }),
{
    lemma_day_times_in_order(events);
}

} // verus!
