//! Points in time and spans of days.

use vstd::prelude::*;

verus! {

/// A point in time: whole seconds since the start of 1970 in UTC, and the
/// nanoseconds into that second.
#[derive(Clone, Copy, Debug, PartialEq, Eq, Structural)]
pub struct Timestamp {
    pub secs: i64,
    pub nanos: u32,
}

impl Timestamp {
    /// The nanoseconds from the start of 1970 to this point.
    pub open spec fn nanoseconds(self) -> int {
        self.secs * 1_000_000_000 + self.nanos
    }
}

/// The largest number of days, forward or back, that a span of time can hold.
pub const MAX_DAYS: i64 = 106_751_991_167;

/// The milliseconds in a day.
pub const MILLIS_PER_DAY: i64 = 86_400_000;

/// The milliseconds in a span of `days` days, where a span can hold as many.
pub open spec fn days_as_millis(days: i64) -> Option<i64> {
    if -MAX_DAYS <= days <= MAX_DAYS {
        Some((days * MILLIS_PER_DAY) as i64)
    } else {
        None
    }
}

/// `Utc::now` of chrono, as the seconds and nanoseconds of its result. The
/// clock decides what comes back, so nothing is claimed of it. Like the call
/// it makes, this panics on a machine whose clock stands before 1970.
#[verifier::external_body]
pub(crate) fn now() -> (at: Timestamp) {
    let at = chrono::Utc::now();
    Timestamp { secs: at.timestamp(), nanos: at.timestamp_subsec_nanos() }
}

/// `TimeDelta::try_days` of chrono, read back with `num_milliseconds`: the
/// span of `days` days in milliseconds. chrono holds a span as seconds and
/// refuses those beyond `i64::MAX` milliseconds either way, which leaves
/// `MAX_DAYS` days as the longest.
#[verifier::external_body]
pub(crate) fn span_of_days(days: i64) -> (millis: Option<i64>)
    ensures
        millis == days_as_millis(days),
{
    match chrono::TimeDelta::try_days(days) {
        Some(span) => Some(span.num_milliseconds()),
        None => None,
    }
}

} // verus!
