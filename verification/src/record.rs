use vstd::prelude::*;

verus! {

/// Largest timestamp magnitude, in seconds since the Unix epoch, that the
/// library accepts. Every instant that the input format can express lies
/// well inside this range, and it leaves ample headroom for the interval
/// arithmetic of the adjuster to stay within `i64`.
pub const TIMESTAMP_BOUND: i64 = 1_000_000_000_000_000;

/// A timestamp the library can do arithmetic on without overflow.
pub open spec fn valid_timestamp(ts: int) -> bool {
    -TIMESTAMP_BOUND <= ts <= TIMESTAMP_BOUND
}

/// One day's recorded work interval: start and end instants, in seconds
/// since the Unix epoch, interpreted in UTC.
#[derive(Debug, Clone, Copy, PartialEq, Eq, Structural)]
pub struct WorkDay {
    pub start_time: i64,
    pub end_time: i64,
}

impl WorkDay {
    /// Both instants lie in the range the library's arithmetic supports.
    pub open spec fn wf(self) -> bool {
        valid_timestamp(self.start_time as int) && valid_timestamp(self.end_time as int)
    }
}

/// A raw record as it appears in the input: two timestamp strings in the
/// form `YYYY-MM-DD HH:MM:SS`, local naive time read as UTC.
pub struct WorkDayUpdated {
    pub start_time: String,
    pub end_time: String,
}

/// The failures the library itself can produce.
#[derive(Debug, Clone, Copy, PartialEq, Eq, Structural)]
pub enum WorkTimeError {
    /// A timestamp string does not match the expected format, or denotes an
    /// instant outside the supported range.
    MalformedInput,
    /// No record qualified for the trailing window, so an average does not
    /// exist.
    DivisionUndefined,
}

} // verus!
