//! The system clock, read through `std::time`. What it returns depends on the
//! moment of the call, so nothing is stated of the values; the library only
//! computes on what comes back.
use vstd::prelude::*;
use std::time::{Duration, SystemTime, SystemTimeError, UNIX_EPOCH};

verus! {

#[verifier::external_type_specification]
#[verifier::external_body]
pub struct ExSystemTime(SystemTime);

#[verifier::external_type_specification]
#[verifier::external_body]
pub struct ExSystemTimeError(SystemTimeError);

/// `SystemTime::now`: the current time of the system clock. Nothing is stated
/// of it.
#[verifier::external_body]
pub(crate) fn system_time_now() -> SystemTime {
    SystemTime::now()
}

/// `SystemTime::duration_since`, taken from `UNIX_EPOCH`: the time elapsed
/// since the epoch, or an error where the clock reads an earlier time. Nothing
/// is stated of either.
#[verifier::external_body]
pub(crate) fn duration_since_unix_epoch(t: &SystemTime) -> Result<Duration, SystemTimeError> {
    t.duration_since(UNIX_EPOCH)
}

/// `Duration::as_millis`: the whole milliseconds of a duration. A duration is
/// opaque here, so nothing is stated of the number.
#[verifier::external_body]
pub(crate) fn duration_as_millis(d: &Duration) -> u128 {
    d.as_millis()
}

} // verus!
