//! The system clock and `Duration` values.

use vstd::prelude::*;
use std::time::{Duration, SystemTime};

verus! {

#[verifier::external_type_specification]
#[verifier::external_body]
pub struct ExSystemTime(std::time::SystemTime);

/// The length of a `Duration` in nanoseconds (what `Duration::as_nanos` gives).
pub uninterp spec fn duration_nanos(d: Duration) -> int;

/// `Duration::new`: `secs` whole seconds and `nanos` more nanoseconds. With
/// `nanos` below one second, no carry happens and the call cannot panic.
#[verifier::external_body]
pub(crate) fn duration_new(secs: u64, nanos: u32) -> (d: Duration)
    requires
        nanos < 1_000_000_000,
    ensures
        duration_nanos(d) == secs * 1_000_000_000 + nanos,
{
    Duration::new(secs, nanos)
}

/// `Duration::as_secs`: the number of whole seconds in `d`.
#[verifier::external_body]
pub(crate) fn duration_as_secs(d: &Duration) -> (secs: u64)
    ensures
        secs == duration_nanos(*d) / 1_000_000_000,
{
    d.as_secs()
}

/// `SystemTime::now`: the current time of the system clock. Nothing is
/// claimed of the value.
#[verifier::external_body]
pub(crate) fn system_time_now() -> SystemTime {
    SystemTime::now()
}

/// `SystemTime::duration_since` taken from `UNIX_EPOCH`: the time elapsed
/// since the epoch, or `None` where `t` lies before it. Nothing is claimed of
/// which outcome comes, as that rests on the clock.
#[verifier::external_body]
pub(crate) fn since_unix_epoch(t: &SystemTime) -> Option<Duration> {
    t.duration_since(std::time::UNIX_EPOCH).ok()
}

/// Whole seconds since the Unix epoch by the system clock, or `None` where
/// the clock reads a time before the epoch.
pub fn unix_now_secs() -> (res: Option<u64>) {
    let now = system_time_now();
    match since_unix_epoch(&now) {
        Some(d) => Some(duration_as_secs(&d)),
        None => None,
    }
}

} // verus!
