use vstd::prelude::*;

use crate::average::qualifies;
use crate::average::qualifying_count;
use crate::average::total_adjusted_seconds;
use crate::average::window_threshold;
use crate::record::WorkDay;
use crate::schedule::EVENING_BREAK_DURATION_SECS;
use crate::schedule::EVENING_BREAK_END_SECS;
use crate::schedule::EVENING_BREAK_START_SECS;
use crate::schedule::LUNCH_BREAK_DURATION_SECS;
use crate::schedule::LUNCH_BREAK_END_SECS;
use crate::schedule::LUNCH_BREAK_START_SECS;
use crate::schedule::WORKDAY_END_SECS;
use crate::schedule::WORKDAY_START_SECS;
use crate::schedule::adjusted_seconds;
use crate::schedule::day_start;

verus! {

/// The interval lies inside the workday bounds of its start's calendar day,
/// ends no later than the evening break starts, and does not span any part
/// of the lunch break: no clipping or deduction rule touches it.
pub open spec fn unaffected_interval(start_time: int, end_time: int) -> bool {
    let ds = day_start(start_time);
    &&& ds + WORKDAY_START_SECS <= start_time
    &&& start_time <= end_time
    &&& end_time <= ds + EVENING_BREAK_START_SECS
    &&& (end_time <= ds + LUNCH_BREAK_START_SECS || start_time >= ds + LUNCH_BREAK_END_SECS)
}

/// A record whose interval no rule touches keeps exactly its raw span:
/// the adjusted duration is `end_time - start_time`.
pub proof fn lemma_unaffected_interval_exact(start_time: int, end_time: int)
    requires
        unaffected_interval(start_time, end_time),
    ensures
        adjusted_seconds(start_time, end_time) == end_time - start_time,
{
}

/// A record that begins at or before the workday start and ends at or after
/// the workday end is clipped to exactly the official workday: its adjusted
/// duration equals that of the record `[workday start, workday end]` itself,
/// which spans both breaks and so is the full workday span minus both break
/// deductions.
pub proof fn lemma_clipped_to_workday(start_time: int, end_time: int)
    requires
        start_time <= day_start(start_time) + WORKDAY_START_SECS,
        end_time >= day_start(start_time) + WORKDAY_END_SECS,
    ensures
        adjusted_seconds(start_time, end_time) == adjusted_seconds(
            day_start(start_time) + WORKDAY_START_SECS,
            day_start(start_time) + WORKDAY_END_SECS,
        ),
        adjusted_seconds(start_time, end_time) == WORKDAY_END_SECS - WORKDAY_START_SECS
            - LUNCH_BREAK_DURATION_SECS - EVENING_BREAK_DURATION_SECS,
{
    let ds = day_start(start_time);
    assert(day_start(ds + WORKDAY_START_SECS) == ds) by {
        let q = start_time / 86400;
        assert(ds == 86400 * q);
        assert((86400 * q + 30600) / 86400 == q) by (nonlinear_arith);
    }
}

/// A record ending exactly when the evening break ends triggers neither the
/// fixed evening deduction nor the partial-overlap one: relative to the same
/// record ending when the break starts, the whole break interval is counted
/// in full.
pub proof fn lemma_end_at_evening_break_end(start_time: int)
    ensures
        adjusted_seconds(start_time, day_start(start_time) + EVENING_BREAK_END_SECS)
            == adjusted_seconds(start_time, day_start(start_time) + EVENING_BREAK_START_SECS) + (
        EVENING_BREAK_END_SECS - EVENING_BREAK_START_SECS),
{
}

/// When every record starts before the window threshold, none qualifies:
/// the averager then returns `DivisionUndefined`, since its contract makes
/// that outcome equivalent to a zero qualifying count.
pub proof fn lemma_stale_records_excluded(days: Seq<WorkDay>, now: int)
    requires
        forall|i: int|
            0 <= i < days.len() ==> (#[trigger] days[i]).start_time < window_threshold(now),
    ensures
        qualifying_count(days, now) == 0,
    decreases days.len(),
{
    if days.len() > 0 {
        assert(days[days.len() - 1].start_time < window_threshold(now));
        assert(forall|i: int|
            0 <= i < days.drop_last().len() ==> (#[trigger] days.drop_last()[i]).start_time
                < window_threshold(now));
        lemma_stale_records_excluded(days.drop_last(), now);
    }
}

/// Sum of the raw spans `end_time - start_time` of all records, in seconds.
pub open spec fn raw_total_seconds(days: Seq<WorkDay>) -> int
    decreases days.len(),
{
    if days.len() == 0 {
        0
    } else {
        raw_total_seconds(days.drop_last()) + (days.last().end_time - days.last().start_time)
    }
}

/// Feeding the averager records that all qualify for the window and whose
/// intervals no rule touches reproduces the plain mean of the raw spans:
/// every record counts, and the total the average divides is exactly the
/// sum of the raw spans.
pub proof fn lemma_untouched_records_average_raw(days: Seq<WorkDay>, now: int)
    requires
        forall|i: int| 0 <= i < days.len() ==> qualifies(#[trigger] days[i], now),
        forall|i: int|
            0 <= i < days.len() ==> unaffected_interval(
                (#[trigger] days[i]).start_time as int,
                days[i].end_time as int,
            ),
    ensures
        qualifying_count(days, now) == days.len(),
        total_adjusted_seconds(days, now) == raw_total_seconds(days),
    decreases days.len(),
{
    if days.len() > 0 {
        assert(qualifies(days[days.len() - 1], now));
        assert(unaffected_interval(
            days[days.len() - 1].start_time as int,
            days[days.len() - 1].end_time as int,
        ));
        lemma_unaffected_interval_exact(
            days.last().start_time as int,
            days.last().end_time as int,
        );
        lemma_untouched_records_average_raw(days.drop_last(), now);
    }
}

} // verus!
