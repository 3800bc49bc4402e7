use vstd::prelude::*;

use crate::record::TIMESTAMP_BOUND;
use crate::record::WorkDay;
use crate::record::WorkDayUpdated;
use crate::record::WorkTimeError;
use crate::record::valid_timestamp;

verus! {

/// The instant, in seconds since the Unix epoch, that a timestamp string in
/// the form `YYYY-MM-DD HH:MM:SS` denotes when read as naive UTC time, or
/// `None` when the string does not match that form. The value depends on
/// the string alone.
pub uninterp spec fn parsed_timestamp(s: Seq<char>) -> Option<int>;

/// Relies on chrono's `NaiveDateTime::parse_from_str` with the format
/// `%Y-%m-%d %H:%M:%S`, whose result depends on the input string alone, and
/// on `DateTime::<Utc>::timestamp`, which reads that parsed naive instant
/// back as its seconds since the Unix epoch.
#[verifier::external_body]
fn parse_timestamp(s: &str) -> (r: Option<i64>)
    ensures
        match r {
            Some(v) => parsed_timestamp(s@) == Some(v as int),
            None => parsed_timestamp(s@) is None,
        },
{
    match chrono::NaiveDateTime::parse_from_str(s, "%Y-%m-%d %H:%M:%S") {
        Ok(dt) => Some(dt.and_utc().timestamp()),
        Err(_) => None,
    }
}

/// A timestamp string is accepted when it parses and the instant it denotes
/// lies within the range the library's arithmetic supports.
pub open spec fn timestamp_accepted(s: Seq<char>) -> bool {
    match parsed_timestamp(s) {
        Some(v) => valid_timestamp(v),
        None => false,
    }
}

/// Turns one raw input record into a `WorkDay`, rejecting it as
/// `MalformedInput` exactly when either timestamp string fails to parse or
/// denotes an instant outside the supported range.
pub fn work_day_from_updated(raw: &WorkDayUpdated) -> (r: Result<WorkDay, WorkTimeError>)
    ensures
        match r {
            Ok(day) => timestamp_accepted(raw.start_time@) && timestamp_accepted(raw.end_time@)
                && parsed_timestamp(raw.start_time@) == Some(day.start_time as int)
                && parsed_timestamp(raw.end_time@) == Some(day.end_time as int) && day.wf(),
            Err(e) => e == WorkTimeError::MalformedInput && !(timestamp_accepted(raw.start_time@)
                && timestamp_accepted(raw.end_time@)),
        },
{
    let start_time = match parse_timestamp(raw.start_time.as_str()) {
        Some(v) => v,
        None => {
            return Err(WorkTimeError::MalformedInput);
        },
    };
    let end_time = match parse_timestamp(raw.end_time.as_str()) {
        Some(v) => v,
        None => {
            return Err(WorkTimeError::MalformedInput);
        },
    };
    if start_time < -TIMESTAMP_BOUND || start_time > TIMESTAMP_BOUND || end_time < -TIMESTAMP_BOUND
        || end_time > TIMESTAMP_BOUND {
        return Err(WorkTimeError::MalformedInput);
    }
    Ok(WorkDay { start_time, end_time })
}

/// Turns a whole parsed input file into `WorkDay`s, in order, failing on the
/// first record whose timestamps are not accepted.
pub fn work_days_from_updated(raw: &Vec<WorkDayUpdated>) -> (r: Result<Vec<WorkDay>, WorkTimeError>)
    ensures
        match r {
            Ok(days) => days@.len() == raw@.len() && forall|i: int|
                0 <= i < raw@.len() ==> timestamp_accepted(#[trigger] raw@[i].start_time@)
                    && timestamp_accepted(raw@[i].end_time@) && parsed_timestamp(raw@[i].start_time@)
                    == Some(days@[i].start_time as int) && parsed_timestamp(raw@[i].end_time@)
                    == Some(days@[i].end_time as int) && days@[i].wf(),
            Err(e) => e == WorkTimeError::MalformedInput && exists|i: int|
                0 <= i < raw@.len() && !(timestamp_accepted(#[trigger] raw@[i].start_time@)
                    && timestamp_accepted(raw@[i].end_time@)),
        },
{
    let mut days: Vec<WorkDay> = Vec::new();
    let n = raw.len();
    let mut idx: usize = 0;
    while idx < n
        invariant
            n == raw@.len(),
            0 <= idx <= n,
            days@.len() == idx,
            forall|i: int|
                0 <= i < idx ==> timestamp_accepted(#[trigger] raw@[i].start_time@)
                    && timestamp_accepted(raw@[i].end_time@) && parsed_timestamp(raw@[i].start_time@)
                    == Some(days@[i].start_time as int) && parsed_timestamp(raw@[i].end_time@)
                    == Some(days@[i].end_time as int) && days@[i].wf(),
        decreases n - idx,
    {
        match work_day_from_updated(&raw[idx]) {
            Ok(day) => {
                days.push(day);
            },
            Err(e) => {
                return Err(e);
            },
        }
        idx = idx + 1;
    }
    Ok(days)
}

} // verus!
