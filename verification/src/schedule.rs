use vstd::prelude::*;

use crate::record::TIMESTAMP_BOUND;
use crate::record::valid_timestamp;

verus! {

/// Number of seconds in one calendar day.
pub const SECONDS_PER_DAY: i64 = 86400;

/// Offsets of the fixed schedule boundaries from the start of a calendar
/// day, in seconds.
pub const WORKDAY_START_SECS: i64 = 30600;  // 08:30:00
pub const WORKDAY_END_SECS: i64 = 82800;  // 23:00:00
pub const LUNCH_BREAK_START_SECS: i64 = 43200;  // 12:00:00
pub const LUNCH_BREAK_END_SECS: i64 = 48600;  // 13:30:00
pub const EVENING_BREAK_START_SECS: i64 = 64800;  // 18:00:00
pub const EVENING_BREAK_END_SECS: i64 = 66600;  // 18:30:00

/// Fixed deductions for a fully spanned break, in seconds.
pub const LUNCH_BREAK_DURATION_SECS: i64 = 5400;  // 90 minutes
pub const EVENING_BREAK_DURATION_SECS: i64 = 1800;  // 30 minutes

/// The first instant of the UTC calendar day containing `ts` (seconds since
/// the Unix epoch).
pub open spec fn day_start(ts: int) -> int {
    (ts / (SECONDS_PER_DAY as int)) * (SECONDS_PER_DAY as int)
}

/// The start of a day is at most `ts` and less than one day before it.
pub proof fn lemma_day_start_bounds(ts: int)
    ensures
        ts - SECONDS_PER_DAY < day_start(ts) <= ts,
{
    assert(ts == (ts / 86400) * 86400 + ts % 86400);
}

/// The effective worked duration of the interval `[start_time, end_time]`,
/// in seconds: the raw span, minus the portions that fall before the
/// official workday start or after its end, minus the full lunch break when
/// the interval spans it, minus the full evening break once the end passes
/// it, and minus the partial evening overlap when the end falls strictly
/// inside the break. All six boundaries belong to the calendar day of
/// `start_time`. The deductions apply in this order, each tested
/// independently, so the result can be negative for degenerate input.
pub open spec fn adjusted_seconds(start_time: int, end_time: int) -> int {
    let ds = day_start(start_time);
    let d0 = end_time - start_time;
    let d1 = if start_time < ds + WORKDAY_START_SECS {
        d0 - (ds + WORKDAY_START_SECS - start_time)
    } else {
        d0
    };
    let d2 = if end_time > ds + WORKDAY_END_SECS {
        d1 - (end_time - (ds + WORKDAY_END_SECS))
    } else {
        d1
    };
    let d3 = if start_time < ds + LUNCH_BREAK_START_SECS && end_time > ds + LUNCH_BREAK_END_SECS {
        d2 - LUNCH_BREAK_DURATION_SECS
    } else {
        d2
    };
    let d4 = if end_time > ds + EVENING_BREAK_END_SECS {
        d3 - EVENING_BREAK_DURATION_SECS
    } else {
        d3
    };
    if ds + EVENING_BREAK_START_SECS < end_time && end_time < ds + EVENING_BREAK_END_SECS {
        d4 - (end_time - (ds + EVENING_BREAK_START_SECS))
    } else {
        d4
    }
}

/// Magnitude bound on the adjusted duration of any interval with valid
/// endpoints.
pub const MAX_ADJUSTED_SECS: i64 = 5_000_000_000_000_000;

/// The adjusted duration of an interval with valid endpoints stays well
/// inside `i64`, which lets an averager sum many of them in an `i128`.
pub proof fn lemma_adjusted_seconds_bounds(start_time: int, end_time: int)
    requires
        valid_timestamp(start_time),
        valid_timestamp(end_time),
    ensures
        -MAX_ADJUSTED_SECS <= adjusted_seconds(start_time, end_time) <= MAX_ADJUSTED_SECS,
{
    lemma_day_start_bounds(start_time);
}

/// First instant of the UTC calendar day containing `ts`.
pub fn day_start_of(ts: i64) -> (r: i64)
    requires
        valid_timestamp(ts as int),
    ensures
        r == day_start(ts as int),
{
    let q: i64 = ts / SECONDS_PER_DAY;
    let rem: i64 = ts % SECONDS_PER_DAY;
    if rem < 0 {
        (q - 1) * SECONDS_PER_DAY
    } else {
        q * SECONDS_PER_DAY
    }
}

/// Effective worked duration of one day's interval, in seconds: clips the
/// span to the official workday bounds of `start_time`'s calendar day and
/// deducts the break overlaps, in the fixed order that `adjusted_seconds`
/// states.
pub fn calculate_work_hours(start_time: i64, end_time: i64) -> (r: i64)
    requires
        valid_timestamp(start_time as int),
        valid_timestamp(end_time as int),
    ensures
        r == adjusted_seconds(start_time as int, end_time as int),
{
    proof {
        lemma_day_start_bounds(start_time as int);
    }
    let ds = day_start_of(start_time);
    let start_of_day = ds + WORKDAY_START_SECS;
    let end_of_day = ds + WORKDAY_END_SECS;
    let lunch_break_start = ds + LUNCH_BREAK_START_SECS;
    let lunch_break_end = ds + LUNCH_BREAK_END_SECS;
    let evening_break_start = ds + EVENING_BREAK_START_SECS;
    let evening_break_end = ds + EVENING_BREAK_END_SECS;

    let mut work_duration = end_time - start_time;

    if start_time < start_of_day {
        work_duration = work_duration - (start_of_day - start_time);
    }

    if end_time > end_of_day {
        work_duration = work_duration - (end_time - end_of_day);
    }

    if start_time < lunch_break_start && end_time > lunch_break_end {
        work_duration = work_duration - LUNCH_BREAK_DURATION_SECS;
    }

    if end_time > evening_break_end {
        work_duration = work_duration - EVENING_BREAK_DURATION_SECS;
    }

    if evening_break_start < end_time && end_time < evening_break_end {
        work_duration = work_duration - (end_time - evening_break_start);
    }

    work_duration
}

} // verus!
