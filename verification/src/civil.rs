//! Day numbers of the proleptic Gregorian calendar.

use vstd::prelude::*;

verus! {

/// Whether `year` is a leap year of the Gregorian calendar.
pub open spec fn is_civil_leap_year(year: int) -> bool {
    year % 4 == 0 && (year % 100 != 0 || year % 400 == 0)
}

/// The number of days of a month of the Gregorian calendar.
pub open spec fn days_in_civil_month(year: int, month: int) -> int {
    if month == 2 {
        if is_civil_leap_year(year) {
            29
        } else {
            28
        }
    } else if month == 4 || month == 6 || month == 9 || month == 11 {
        30
    } else {
        31
    }
}

/// Whether the calendar has a day `day` in the month `month` of `year`.
pub open spec fn civil_date_exists(year: int, month: int, day: int) -> bool {
    1 <= month <= 12 && 1 <= day <= days_in_civil_month(year, month)
}

/// The leap years from year 0 up to `year`, not counting `year`; for a
/// year before year 0, less the leap years from `year` up to year 0.
pub open spec fn leap_years_before(year: int) -> int {
    (year + 3) / 4 - (year + 99) / 100 + (year + 399) / 400
}

/// The days from 1 January of year 0 to 1 January of `year`.
pub open spec fn days_before_year(year: int) -> int {
    365 * year + leap_years_before(year)
}

/// The days of `year` that lie before its month `month`.
pub open spec fn days_before_month(year: int, month: int) -> int
    decreases month,
{
    if month <= 1 {
        0
    } else {
        days_before_month(year, month - 1) + days_in_civil_month(year, month - 1)
    }
}

/// The count of days from 1 January of year 0 to a date.
pub open spec fn day_count(year: int, month: int, day: int) -> int {
    days_before_year(year) + days_before_month(year, month) + day - 1
}

/// The Julian day number of 1 January of year 0.
pub const JULIAN_DAY_OF_YEAR_ZERO: i32 = 1721060;

/// The Julian day number of a date: the count of its days, from the
/// Julian day number of 1 January of year 0.
pub open spec fn julian_day_number(year: int, month: int, day: int) -> int {
    JULIAN_DAY_OF_YEAR_ZERO + day_count(year, month, day)
}

/// The Julian day number of a date by the closed formula, which counts
/// the years from a March long ago.
#[verifier::opaque]
pub open spec fn julian_day_formula(year: int, month: int, day: int) -> int {
    let a = (14 - month) / 12;
    let y = year + 4800 - a;
    let m = month + 12 * a - 3;
    day + (153 * m + 2) / 5 + 365 * y + y / 4 - y / 100 + y / 400 - 32045
}

/// The date of a Julian day number, as year, month and day, by the
/// closed formula that undoes the one above.
#[verifier::opaque]
pub open spec fn civil_from_julian_day(jd: int) -> (int, int, int) {
    let l = jd + 68569;
    let n = (4 * l) / 146097;
    let l = l - (146097 * n + 3) / 4;
    let i = (4000 * (l + 1)) / 1461001;
    let l = l - (1461 * i) / 4 + 31;
    let j = (80 * l) / 2447;
    let day = l - (2447 * j) / 80;
    let l = j / 11;
    let month = j + 2 - 12 * l;
    let year = 100 * (n - 49) + i + l;
    (year, month, day)
}

/// A date of the first four centuries comes back from its day number.
proof fn lemma_date_round_trip_cycle(year: int, month: int, day: int)
    requires
        0 <= year < 400,
        civil_date_exists(year, month, day),
    ensures
        civil_from_julian_day(julian_day_formula(year, month, day)) == (year, month, day),
{
    reveal(julian_day_formula);
    reveal(civil_from_julian_day);
    let a = (14 - month) / 12;
    let t = year - a;
    let mm = month + 12 * a - 3;
    let c = t / 100;
    let r = t % 100;
    let doy = (153 * mm + 2) / 5 + day - 1;
    assert(0 <= mm < 12);
    assert(0 <= doy <= 365);
    assert(-1 <= c <= 3);
    let y = year + 4800 - a;
    assert(y == 4800 + 100 * c + r);
    assert(y / 400 == 12 + (if c < 0 { -1int } else { 0int }));
    assert(y / 100 == 48 + c);
    assert(y / 4 == 1200 + 25 * c + r / 4);
    let jd = julian_day_formula(year, month, day);
    let l = jd + 68569;
    assert(l == 1753164 + 36525 + 36524 * c + (if c < 0 {
        -1int
    } else {
        0int
    }) + 365 * r + r / 4 + doy);
    let n = (4 * l) / 146097;
    assert(n == 49 + c);
    let l2 = l - (146097 * n + 3) / 4;
    assert(l2 == 365 * r + r / 4 + doy);
    let i = (4000 * (l2 + 1)) / 1461001;
    assert(i == r);
    let l3 = l2 - (1461 * i) / 4 + 31;
    assert(l3 == doy + 31);
    let j = (80 * l3) / 2447;
    assert(j == mm + 1);
    let dd = l3 - (2447 * j) / 80;
    assert(dd == day);
}

/// The two month tables agree: days before month `j` of the March-based
/// year, by the formula of either direction.
proof fn lemma_month_offset(j: int)
    requires
        1 <= j <= 12,
    ensures
        (153 * (j - 1) + 2) / 5 + 30 == (2447 * j) / 80,
{
}

/// A day number of the first four centuries names a date that exists, and
/// that date has this day number.
proof fn lemma_day_round_trip_cycle(jd: int)
    requires
        1721060 <= jd < 1721060 + 146097,
    ensures
        ({
            let (year, month, day) = civil_from_julian_day(jd);
            &&& 0 <= year < 400
            &&& civil_date_exists(year, month, day)
            &&& julian_day_formula(year, month, day) == jd
        }),
{
    reveal(julian_day_formula);
    reveal(civil_from_julian_day);
    let l = jd + 68569;
    let n = (4 * l) / 146097;
    assert(48 <= n <= 52);
    let c = n - 49;
    let l2 = l - (146097 * n + 3) / 4;
    assert(0 <= l2 <= 36524);
    let i = (4000 * (l2 + 1)) / 1461001;
    assert(0 <= i <= 99);
    let l3 = l2 - (1461 * i) / 4 + 31;
    assert(31 <= l3 <= 396);
    let j = (80 * l3) / 2447;
    assert(1 <= j <= 12);
    let day = l3 - (2447 * j) / 80;
    assert(1 <= day <= 31);
    let a = j / 11;
    let month = j + 2 - 12 * a;
    let year = 100 * c + i + a;
    assert((14 - month) / 12 == a);
    let y = year + 4800 - a;
    assert(y == 4800 + 100 * c + i);
    assert(y / 400 == 12 + (if c < 0 { -1int } else { 0int }));
    assert(y / 100 == 48 + c);
    assert(y / 4 == 1200 + 25 * c + i / 4);
    lemma_month_offset(j);
    assert(julian_day_formula(year, month, day) == jd);
    assert(0 <= year < 400);
    assert(civil_date_exists(year, month, day));
}

/// The calendar repeats every 400 years, which are 146097 days.
proof fn lemma_julian_day_shift(year: int, month: int, day: int, k: int)
    requires
        1 <= month <= 12,
    ensures
        julian_day_formula(year + 400 * k, month, day) == julian_day_formula(year, month, day)
            + 146097 * k,
{
    reveal(julian_day_formula);
    let a = (14 - month) / 12;
    let y = year + 4800 - a;
    assert((y + 400 * k) / 4 == y / 4 + 100 * k);
    assert((y + 400 * k) / 100 == y / 100 + 4 * k);
    assert((y + 400 * k) / 400 == y / 400 + k);
}

proof fn lemma_exists_shift(year: int, month: int, day: int, k: int)
    ensures
        civil_date_exists(year + 400 * k, month, day) == civil_date_exists(year, month, day),
{
    assert(is_civil_leap_year(year + 400 * k) == is_civil_leap_year(year));
}

proof fn lemma_civil_shift(jd: int, k: int)
    ensures
        civil_from_julian_day(jd + 146097 * k) == ({
            let (year, month, day) = civil_from_julian_day(jd);
            (year + 400 * k, month, day)
        }),
{
    reveal(civil_from_julian_day);
    let l = jd + 68569;
    let n = (4 * l) / 146097;
    assert((4 * (l + 146097 * k)) / 146097 == n + 4 * k);
    assert((146097 * (n + 4 * k) + 3) / 4 == (146097 * n + 3) / 4 + 146097 * k);
}

/// Round trip, from the date: the date that `civil_from_julian_day` finds
/// for the day number of an existing date is that date.
pub proof fn lemma_date_round_trip(year: int, month: int, day: int)
    requires
        civil_date_exists(year, month, day),
    ensures
        civil_from_julian_day(julian_day_number(year, month, day)) == (year, month, day),
{
    lemma_julian_day_formula(year, month, day);
    let k = year / 400;
    let y0 = year % 400;
    lemma_exists_shift(y0, month, day, k);
    lemma_date_round_trip_cycle(y0, month, day);
    lemma_julian_day_shift(y0, month, day, k);
    lemma_civil_shift(julian_day_formula(y0, month, day), k);
}

/// Round trip, from the day number: every day number names a date that
/// exists, and the day number of that date is the one we started from.
pub proof fn lemma_day_round_trip(jd: int)
    ensures
        ({
            let (year, month, day) = civil_from_julian_day(jd);
            &&& civil_date_exists(year, month, day)
            &&& julian_day_number(year, month, day) == jd
        }),
{
    let k = (jd - 1721060) / 146097;
    let jd0 = (jd - 1721060) % 146097 + 1721060;
    assert(jd == jd0 + 146097 * k);
    let date0 = civil_from_julian_day(jd0);
    lemma_day_round_trip_cycle(jd0);
    lemma_civil_shift(jd0, k);
    lemma_julian_day_shift(date0.0, date0.1, date0.2, k);
    lemma_exists_shift(date0.0, date0.1, date0.2, k);
    lemma_julian_day_formula(date0.0 + 400 * k, date0.1, date0.2);
}

/// The days of a common year that lie before its month `month`.
spec fn common_days_before_month(month: int) -> int {
    if month <= 1 {
        0
    } else if month == 2 {
        31
    } else if month == 3 {
        59
    } else if month == 4 {
        90
    } else if month == 5 {
        120
    } else if month == 6 {
        151
    } else if month == 7 {
        181
    } else if month == 8 {
        212
    } else if month == 9 {
        243
    } else if month == 10 {
        273
    } else if month == 11 {
        304
    } else {
        334
    }
}

/// The days before a month are those of a common year, and one more
/// after the February of a leap year.
proof fn lemma_days_before_month(year: int, month: int)
    requires
        1 <= month <= 12,
    ensures
        days_before_month(year, month) == common_days_before_month(month) + (if month > 2
            && is_civil_leap_year(year) {
            1int
        } else {
            0int
        }),
    decreases month,
{
    if month > 1 {
        lemma_days_before_month(year, month - 1);
    }
}

/// The closed formula counts the days: it gives the Julian day number.
pub proof fn lemma_julian_day_formula(year: int, month: int, day: int)
    requires
        1 <= month <= 12,
    ensures
        julian_day_formula(year, month, day) == julian_day_number(year, month, day),
{
    reveal(julian_day_formula);
    lemma_days_before_month(year, month);
    let a = (14 - month) / 12;
    let y = year + 4800 - a;
    let m = month + 12 * a - 3;
    assert(y / 4 == (year - a) / 4 + 1200);
    assert(y / 100 == (year - a) / 100 + 48);
    assert(y / 400 == (year - a) / 400 + 12);
    if month <= 2 {
        assert(a == 1);
        assert((153 * m + 2) / 5 == 306 + common_days_before_month(month));
        assert((year + 3) / 4 == (year - 1) / 4 + 1);
        assert((year + 99) / 100 == (year - 1) / 100 + 1);
        assert((year + 399) / 400 == (year - 1) / 400 + 1);
    } else {
        assert(a == 0);
        assert((153 * m + 2) / 5 == common_days_before_month(month) - 59);
        assert((year + 3) / 4 + (if year % 4 == 0 { 1int } else { 0int }) == year / 4 + 1);
        assert((year + 99) / 100 + (if year % 100 == 0 { 1int } else { 0int }) == year / 100 + 1);
        assert((year + 399) / 400 + (if year % 400 == 0 { 1int } else { 0int }) == year / 400 + 1);
    }
}

} // verus!
