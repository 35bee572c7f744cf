//! Points in time, as the database hands them out and as the API shows them.

use vstd::prelude::*;

verus! {

/// A date and time of day without a time zone: seconds since
/// 1970-01-01 00:00:00 and nanoseconds within the second.
#[derive(Clone, Copy, Debug, PartialEq, Eq, Structural)]
pub struct NaiveDateTime {
    pub seconds: i64,
    pub nanos: u32,
}

/// A date and time of day in UTC, with the offset of the time zone that it is
/// shown in.
#[derive(Clone, Copy, Debug, PartialEq, Eq, Structural)]
pub struct DateTimeWithTimeZone {
    pub utc: NaiveDateTime,
    pub offset_seconds: i32,
}

impl DateTimeWithTimeZone {
    /// The date and time of day in UTC; the offset plays no part.
    pub fn naive_utc(&self) -> (naive: NaiveDateTime)
        ensures
            naive == self.utc,
    {
        self.utc
    }
}

} // verus!
