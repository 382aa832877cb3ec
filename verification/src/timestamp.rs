//! Instants on the UTC time line, as nanoseconds since the Unix epoch.

use vstd::prelude::*;

verus! {

/// Earliest instant that an `OffsetDateTime` can hold (-9999-01-01T00:00:00Z).
pub const MIN_UNIX_NANOS: i128 = -377_705_116_800_000_000_000;

/// Latest instant that an `OffsetDateTime` can hold (9999-12-31T23:59:59.999999999Z).
pub const MAX_UNIX_NANOS: i128 = 253_402_300_799_999_999_999;

/// Nanoseconds in one second.
pub const NANOS_PER_SEC: i128 = 1_000_000_000;

/// `n` nanoseconds after the epoch is an instant that date-time values can hold.
pub open spec fn in_datetime_range(n: int) -> bool {
    MIN_UNIX_NANOS <= n <= MAX_UNIX_NANOS
}

/// An instant: nanoseconds since 1970-01-01T00:00:00Z.
#[derive(Debug, Clone, Copy, PartialEq, Eq, Structural)]
pub struct Timestamp {
    /// Signed nanoseconds since the Unix epoch.
    pub unix_nanos: i128,
}

impl Timestamp {
    /// The Unix epoch itself.
    pub fn unix_epoch() -> (t: Timestamp)
        ensures
            t.unix_nanos == 0,
    {
        Timestamp { unix_nanos: 0 }
    }

    /// The instant `unix_nanos` nanoseconds after the epoch.
    pub fn from_unix_nanos(unix_nanos: i128) -> (t: Timestamp)
        ensures
            t.unix_nanos == unix_nanos,
    {
        Timestamp { unix_nanos }
    }

    /// `self` comes strictly before `other`.
    pub fn is_before(&self, other: &Timestamp) -> (res: bool)
        ensures
            res == (self.unix_nanos < other.unix_nanos),
    {
        self.unix_nanos < other.unix_nanos
    }
}

} // verus!
