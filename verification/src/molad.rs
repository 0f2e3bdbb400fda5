//! Molad arithmetic: the day on which each Hebrew year begins.
//!
//! Time is counted in parts, 25920 to the day. A lunar month is 29 days
//! and 13753 parts, which are 765433 parts.

use vstd::prelude::*;

verus! {

/// The epoch day of the Hebrew calendar's own day zero.
pub const HEBREW_EPOCH: i32 = -1373426;

/// The first Hebrew year whose day numbers fit in 32 bits with room to spare.
pub const MIN_HEBREW_YEAR: i32 = -5_000_000;

/// The last Hebrew year whose day numbers fit in 32 bits with room to spare.
pub const MAX_HEBREW_YEAR: i32 = 5_000_000;

/// The Hebrew years on which the conversions work.
pub open spec fn year_supported(year: int) -> bool {
    MIN_HEBREW_YEAR <= year <= MAX_HEBREW_YEAR
}

/// Whether Hebrew year `year` has thirteen months: seven years of every
/// nineteen do.
pub open spec fn is_leap_year(year: int) -> bool {
    (7 * year + 1) % 19 < 7
}

/// The number of months in Hebrew year `year`.
pub open spec fn months_in_year(year: int) -> int {
    if is_leap_year(year) {
        13
    } else {
        12
    }
}

/// The months that have passed from the epoch to the start of `year`.
pub open spec fn months_before_year(year: int) -> int {
    (235 * year - 234) / 19
}

/// The parts from the epoch to the molad that opens `year`.
spec fn molad_parts(year: int) -> int {
    765433 * months_before_year(year) + 12084
}

/// The day on which the molad that opens `year` falls.
pub open spec fn molad_day(year: int) -> int {
    let m = months_before_year(year);
    29 * m + (12084 + 13753 * m) / 25920
}

/// The first postponement: a year does not begin on a Sunday, a Wednesday
/// or a Friday.
pub open spec fn postponed(day: int) -> int {
    if (3 * (day + 1)) % 7 < 3 {
        day + 1
    } else {
        day
    }
}

/// Days from the epoch to the start of `year`, after the first postponement.
pub open spec fn elapsed_days(year: int) -> int {
    postponed(molad_day(year))
}

/// The further delay that keeps a year from having 356 or 382 days.
pub open spec fn year_length_correction(year: int) -> int {
    let before = elapsed_days(year - 1);
    let this = elapsed_days(year);
    let after = elapsed_days(year + 1);
    if after - this == 356 {
        2
    } else if this - before == 382 {
        1
    } else {
        0
    }
}

/// The epoch day of the first day of Hebrew year `year`.
#[verifier::opaque]
pub open spec fn year_start(year: int) -> int {
    HEBREW_EPOCH + elapsed_days(year) + year_length_correction(year)
}

/// The number of days of Hebrew year `year`.
pub open spec fn days_in_year(year: int) -> int {
    year_start(year + 1) - year_start(year)
}

/// How many of the `count` years from `year` on are leap years.
pub open spec fn leap_years_from(year: int, count: nat) -> nat
    decreases count,
{
    if count == 0 {
        0
    } else {
        leap_count(year) + leap_years_from(year + 1, (count - 1) as nat)
    }
}

/// The parts of a year of twelve or of thirteen months.
spec fn year_parts(leap: bool) -> int {
    if leap {
        9950629
    } else {
        9185196
    }
}

/// The start of the year whose molad falls at `parts`, counted from the
/// epoch, given whether the year before it and the year itself are leap.
#[verifier::opaque]
spec fn start_from_parts(parts: int, leap_before: bool, leap: bool) -> int {
    let before = postponed((parts - year_parts(leap_before)) / 25920);
    let this = postponed(parts / 25920);
    let after = postponed((parts + year_parts(leap)) / 25920);
    this + (if after - this == 356 {
        2int
    } else if this - before == 382 {
        1int
    } else {
        0int
    })
}

/// Whether the year whose molad falls at `parts` has a length that its
/// leap status `leap` allows; `leap_before` and `leap_after` are the
/// status of its neighbours.
spec fn length_allowed(parts: int, leap_before: bool, leap: bool, leap_after: bool) -> bool {
    let length = start_from_parts(parts + year_parts(leap), leap, leap_after) - start_from_parts(
        parts,
        leap_before,
        leap,
    );
    if leap {
        383 <= length <= 385
    } else {
        353 <= length <= 355
    }
}

/// The months of the years from year 1 up to `year`, not counting `year`.
pub open spec fn months_of_years_before(year: int) -> int
    decreases year,
{
    if year <= 1 {
        0
    } else {
        months_of_years_before(year - 1) + months_in_year(year - 1)
    }
}

/// From one year to the next the molad moves on by twelve or thirteen months.
proof fn lemma_molad_step(year: int)
    ensures
        months_before_year(year + 1) == months_before_year(year) + months_in_year(year),
        molad_parts(year + 1) == molad_parts(year) + year_parts(is_leap_year(year)),
        molad_day(year) == molad_parts(year) / 25920,
{
}

/// The closed formula counts the months: the months before a year are
/// the months of all the years from year 1 up to it.
pub proof fn lemma_months_before_year(year: int)
    requires
        year >= 1,
    ensures
        months_before_year(year) == months_of_years_before(year),
    decreases year,
{
    if year > 1 {
        lemma_months_before_year(year - 1);
        lemma_molad_step(year - 1);
    }
}

/// Two leap years never follow each other, and of three years in a row
/// one is a leap year.
pub proof fn lemma_leap_pattern(year: int)
    ensures
        !(is_leap_year(year) && is_leap_year(year + 1)),
        is_leap_year(year) || is_leap_year(year + 1) || is_leap_year(year + 2),
{
}

/// The year lengths for every place of the molad within one week.
proof fn lemma_length_in_week(parts: int, leap_before: bool, leap: bool, leap_after: bool)
    requires
        0 <= parts < 181440,
        !(leap_before && leap),
        !(leap && leap_after),
        leap_before || leap || leap_after,
    ensures
        length_allowed(parts, leap_before, leap, leap_after),
{
    reveal(start_from_parts);
}

proof fn lemma_postponed_shift(day: int, weeks: int)
    ensures
        postponed(day + 7 * weeks) == postponed(day) + 7 * weeks,
{
}

/// A molad that many whole weeks later starts its year that many weeks later.
proof fn lemma_start_shift(parts: int, weeks: int, leap_before: bool, leap: bool)
    ensures
        start_from_parts(parts + 181440 * weeks, leap_before, leap) == start_from_parts(
            parts,
            leap_before,
            leap,
        ) + 7 * weeks,
{
    reveal(start_from_parts);
    lemma_postponed_shift((parts - year_parts(leap_before)) / 25920, weeks);
    lemma_postponed_shift(parts / 25920, weeks);
    lemma_postponed_shift((parts + year_parts(leap)) / 25920, weeks);
}

/// The start of a year, by the parts of its molad.
proof fn lemma_year_start_by_parts(year: int)
    ensures
        year_start(year) == HEBREW_EPOCH + start_from_parts(
            molad_parts(year),
            is_leap_year(year - 1),
            is_leap_year(year),
        ),
{
    reveal(year_start);
    reveal(start_from_parts);
    lemma_molad_step(year - 1);
    lemma_molad_step(year);
    lemma_molad_step(year + 1);
}

/// Every Hebrew year has one of the six lengths: 353, 354 or 355 days
/// with twelve months, 383, 384 or 385 days with thirteen.
pub proof fn lemma_year_length(year: int)
    ensures
        is_leap_year(year) ==> 383 <= days_in_year(year) <= 385,
        !is_leap_year(year) ==> 353 <= days_in_year(year) <= 355,
{
    let leap_before = is_leap_year(year - 1);
    let leap = is_leap_year(year);
    let leap_after = is_leap_year(year + 1);
    let parts = molad_parts(year);
    let weeks = parts / 181440;
    let in_week = parts % 181440;
    lemma_leap_pattern(year - 1);
    lemma_molad_step(year);
    lemma_year_start_by_parts(year);
    lemma_year_start_by_parts(year + 1);
    lemma_length_in_week(in_week, leap_before, leap, leap_after);
    lemma_start_shift(in_week, weeks, leap_before, leap);
    lemma_start_shift(in_week + year_parts(leap), weeks, leap, leap_after);
}

/// The start of a year, for every place of its molad within one week,
/// falls on one of four days of the week.
proof fn lemma_start_weekday_in_week(parts: int, leap_before: bool, leap: bool)
    requires
        0 <= parts < 181440,
        !(leap_before && leap),
    ensures
        ({
            let weekday = (HEBREW_EPOCH + start_from_parts(parts, leap_before, leap)) % 7;
            weekday == 0 || weekday == 2 || weekday == 3 || weekday == 5
        }),
{
    reveal(start_from_parts);
}

/// No year begins on a Sunday, a Wednesday or a Friday: counted from the
/// Saturday of epoch day 0, the first day of a year is day 0, 2, 3 or 5
/// of the week.
pub proof fn lemma_year_start_weekday(year: int)
    ensures
        ({
            let weekday = year_start(year) % 7;
            weekday == 0 || weekday == 2 || weekday == 3 || weekday == 5
        }),
{
    let leap_before = is_leap_year(year - 1);
    let leap = is_leap_year(year);
    let parts = molad_parts(year);
    let weeks = parts / 181440;
    let in_week = parts % 181440;
    lemma_leap_pattern(year - 1);
    lemma_year_start_by_parts(year);
    lemma_start_weekday_in_week(in_week, leap_before, leap);
    lemma_start_shift(in_week, weeks, leap_before, leap);
    let start = HEBREW_EPOCH + start_from_parts(in_week, leap_before, leap);
    assert(parts == in_week + 181440 * weeks);
    assert(year_start(year) == start + 7 * weeks);
    lemma_weekday_shift(start, weeks);
}

proof fn lemma_weekday_shift(day: int, weeks: int)
    ensures
        (day + 7 * weeks) % 7 == day % 7,
{
}

/// Between two years there are at least 353 and at most 385 days for each
/// year that lies between them.
pub proof fn lemma_year_start_span(from: int, to: int)
    requires
        from <= to,
    ensures
        353 * (to - from) <= year_start(to) - year_start(from) <= 385 * (to - from),
    decreases to - from,
{
    if from < to {
        lemma_year_start_span(from, to - 1);
        lemma_year_length(to - 1);
    }
}

/// The start of the year is strictly increasing in the year.
pub proof fn lemma_year_start_increasing(earlier: int, later: int)
    requires
        earlier < later,
    ensures
        year_start(earlier) < year_start(later),
{
    lemma_year_start_span(earlier, later);
}

/// The first year begins on the day of the epoch.
pub proof fn lemma_first_year_start()
    ensures
        year_start(1) == HEBREW_EPOCH,
{
    reveal(year_start);
}

/// The day numbers of the supported years, and of the year after the
/// last, are far inside 32 bits.
pub proof fn lemma_year_start_fits(year: int)
    requires
        MIN_HEBREW_YEAR - 1 <= year <= MAX_HEBREW_YEAR + 1,
    ensures
        -2_000_000_000 <= year_start(year) <= 2_000_000_000,
{
    lemma_first_year_start();
    if year >= 1 {
        lemma_year_start_span(1, year);
    } else {
        lemma_year_start_span(year, 1);
    }
}

/// The leap years repeat every nineteen years.
pub proof fn lemma_leap_cycle(year: int)
    ensures
        is_leap_year(year + 19) == is_leap_year(year),
{
}

/// One for a leap year, nothing for a common year.
pub open spec fn leap_count(year: int) -> nat {
    if is_leap_year(year) {
        1
    } else {
        0
    }
}

/// Counting one year more adds the year at the far end.
proof fn lemma_leap_years_extend(year: int, count: nat)
    ensures
        leap_years_from(year, count + 1) == leap_years_from(year, count) + leap_count(year + count),
    decreases count,
{
    if count > 0 {
        lemma_leap_years_extend(year + 1, (count - 1) as nat);
        assert(leap_years_from(year, count + 1) == leap_count(year) + leap_years_from(
            year + 1,
            count,
        ));
        assert(leap_years_from(year, count) == leap_count(year) + leap_years_from(
            year + 1,
            (count - 1) as nat,
        ));
    } else {
        assert(leap_years_from(year, 1) == leap_count(year) + leap_years_from(year + 1, 0));
    }
}

proof fn lemma_seven_leap_years_from_zero()
    ensures
        leap_years_from(0, 19) == 7,
{
    reveal_with_fuel(leap_years_from, 20);
}

/// Of any nineteen years in a row, exactly seven are leap years.
pub proof fn lemma_seven_leap_years_in_nineteen(year: int)
    ensures
        leap_years_from(year, 19) == 7,
    decreases
        (if year >= 0 {
            year
        } else {
            -year
        }),
{
    if year == 0 {
        lemma_seven_leap_years_from_zero();
    } else if year > 0 {
        // the window that starts a year earlier loses that year and gains
        // the one nineteen years after it, which is leap exactly if it is
        lemma_seven_leap_years_in_nineteen(year - 1);
        lemma_leap_years_extend(year, 18);
        lemma_leap_cycle(year - 1);
        assert(leap_years_from(year - 1, 19) == leap_count(year - 1) + leap_years_from(year, 18));
    } else {
        lemma_seven_leap_years_in_nineteen(year + 1);
        lemma_leap_years_extend(year + 1, 18);
        lemma_leap_cycle(year);
        assert(leap_years_from(year, 19) == leap_count(year) + leap_years_from(year + 1, 18));
    }
}

} // verus!
