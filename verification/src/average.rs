use vstd::prelude::*;

use crate::record::WorkDay;
use crate::record::WorkTimeError;
use crate::record::valid_timestamp;
use crate::schedule::MAX_ADJUSTED_SECS;
use crate::schedule::SECONDS_PER_DAY;
use crate::schedule::adjusted_seconds;
use crate::schedule::calculate_work_hours;
use crate::schedule::lemma_adjusted_seconds_bounds;

verus! {

/// Length of the trailing window, in days.
pub const WINDOW_DAYS: i64 = 30;

/// The earliest start instant that still falls inside the trailing window
/// ending at `now`.
pub open spec fn window_threshold(now: int) -> int {
    now - WINDOW_DAYS * SECONDS_PER_DAY
}

/// A record counts toward the average exactly when its start instant is not
/// before the window threshold.
pub open spec fn qualifies(day: WorkDay, now: int) -> bool {
    day.start_time >= window_threshold(now)
}

/// How many of the records qualify for the window ending at `now`.
pub open spec fn qualifying_count(days: Seq<WorkDay>, now: int) -> int
    decreases days.len(),
{
    if days.len() == 0 {
        0
    } else {
        qualifying_count(days.drop_last(), now) + if qualifies(days.last(), now) {
            1int
        } else {
            0int
        }
    }
}

/// Sum of the adjusted durations of the qualifying records, in seconds.
pub open spec fn total_adjusted_seconds(days: Seq<WorkDay>, now: int) -> int
    decreases days.len(),
{
    if days.len() == 0 {
        0
    } else {
        total_adjusted_seconds(days.drop_last(), now) + if qualifies(days.last(), now) {
            adjusted_seconds(days.last().start_time as int, days.last().end_time as int)
        } else {
            0int
        }
    }
}

/// Whole minutes in `secs` seconds, rounded toward zero.
pub open spec fn minutes_of(secs: int) -> int {
    if secs >= 0 {
        secs / 60
    } else {
        -((-secs) / 60)
    }
}

/// The count never exceeds the number of records, and the total stays
/// within `count * MAX_ADJUSTED_SECS` when every record is well formed.
proof fn lemma_totals_bounded(days: Seq<WorkDay>, now: int)
    requires
        forall|i: int| 0 <= i < days.len() ==> #[trigger] days[i].wf(),
    ensures
        0 <= qualifying_count(days, now) <= days.len(),
        -qualifying_count(days, now) * MAX_ADJUSTED_SECS <= total_adjusted_seconds(days, now)
            <= qualifying_count(days, now) * MAX_ADJUSTED_SECS,
    decreases days.len(),
{
    if days.len() > 0 {
        assert(days[days.len() - 1].wf());
        lemma_totals_bounded(days.drop_last(), now);
        if qualifies(days.last(), now) {
            lemma_adjusted_seconds_bounds(
                days.last().start_time as int,
                days.last().end_time as int,
            );
        }
    }
}

/// The exact average, kept as integers: the minutes worked across the
/// qualifying records of the window, and how many days they span. The
/// average in hours is `total_minutes / 60 / days`, a division the caller
/// performs in whatever numeric type it presents.
#[derive(Debug, Clone, Copy, PartialEq, Eq, Structural)]
pub struct AverageWorkHours {
    /// Sum over the qualifying records of the adjusted duration, in whole
    /// minutes rounded toward zero.
    pub total_minutes: i128,
    /// Number of qualifying records.
    pub days: usize,
}

/// Averages the effective work hours of the records whose start instant
/// falls within the trailing window ending at `now`. Fails with
/// `DivisionUndefined` exactly when no record qualifies.
pub fn calculate_average_work_hours(work_days: Vec<WorkDay>, now: i64) -> (r: Result<
    AverageWorkHours,
    WorkTimeError,
>)
    requires
        valid_timestamp(now as int),
        forall|i: int| 0 <= i < work_days@.len() ==> (#[trigger] work_days@[i]).wf(),
    ensures
        match r {
            Ok(avg) => qualifying_count(work_days@, now as int) > 0 && avg.days
                == qualifying_count(work_days@, now as int) && avg.total_minutes == minutes_of(
                total_adjusted_seconds(work_days@, now as int),
            ),
            Err(e) => e == WorkTimeError::DivisionUndefined && qualifying_count(
                work_days@,
                now as int,
            ) == 0,
        },
{
    let thirty_days_ago = now - WINDOW_DAYS * SECONDS_PER_DAY;
    let mut total_seconds: i128 = 0;
    let mut days: usize = 0;
    let n = work_days.len();
    let mut idx: usize = 0;

    while idx < n
        invariant
            n == work_days@.len(),
            0 <= idx <= n,
            valid_timestamp(now as int),
            forall|i: int| 0 <= i < work_days@.len() ==> (#[trigger] work_days@[i]).wf(),
            thirty_days_ago == window_threshold(now as int),
            days == qualifying_count(work_days@.take(idx as int), now as int),
            total_seconds == total_adjusted_seconds(work_days@.take(idx as int), now as int),
        decreases n - idx,
    {
        proof {
            lemma_totals_bounded(work_days@.take(idx as int), now as int);
            lemma_totals_bounded(work_days@.take(idx as int + 1), now as int);
            assert(work_days@.take(idx as int + 1).drop_last() =~= work_days@.take(idx as int));
            assert(work_days@.take(idx as int + 1).last() == work_days@[idx as int]);
        }
        let day = work_days[idx];
        if day.start_time >= thirty_days_ago {
            days = days + 1;
            let adjusted = calculate_work_hours(day.start_time, day.end_time);
            proof {
                lemma_adjusted_seconds_bounds(day.start_time as int, day.end_time as int);
            }
            total_seconds = total_seconds + adjusted as i128;
        }
        idx = idx + 1;
    }

    proof {
        assert(work_days@.take(n as int) =~= work_days@);
        lemma_totals_bounded(work_days@, now as int);
    }

    if days == 0 {
        return Err(WorkTimeError::DivisionUndefined);
    }

    let total_minutes: i128 = if total_seconds >= 0 {
        total_seconds / 60
    } else {
        -((-total_seconds) / 60)
    };

    Ok(AverageWorkHours { total_minutes, days })
}

} // verus!
