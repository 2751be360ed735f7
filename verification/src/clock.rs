//! Reading the system clock.
use vstd::prelude::*;

use std::time::{Duration, SystemTime, SystemTimeError};

verus! {

#[verifier::external_type_specification]
#[verifier::external_body]
pub struct ExSystemTime(SystemTime);

#[verifier::external_type_specification]
#[verifier::external_body]
pub struct ExSystemTimeError(SystemTimeError);

/// Calls `SystemTime::now`. The current time depends on the machine's clock,
/// so nothing is stated of it.
#[verifier::external_body]
pub(crate) fn now() -> SystemTime {
    SystemTime::now()
}

/// Calls `SystemTime::duration_since` with `UNIX_EPOCH`: the time elapsed since
/// the Unix epoch, or an error when `time` lies before it. Nothing is stated of
/// the value, which depends on the clock reading.
#[verifier::external_body]
pub(crate) fn since_unix_epoch(time: &SystemTime) -> Result<Duration, SystemTimeError> {
    time.duration_since(SystemTime::UNIX_EPOCH)
}

/// Calls `Duration::as_nanos`: the whole nanoseconds in `duration`. A `Duration`
/// is opaque here, so nothing is stated of the count.
#[verifier::external_body]
pub(crate) fn as_nanos(duration: &Duration) -> u128 {
    duration.as_nanos()
}

} // verus!
