//! The wall clock and the monotonic clock, as the library reads them. Every
//! reading is whatever the machine says: nothing here is claimed of a value
//! but what std documents of every value.

use vstd::prelude::*;

use core::time::Duration;
use std::time::{Instant, SystemTime, SystemTimeError};

verus! {

#[verifier::external_type_specification]
#[verifier::external_body]
pub struct ExSystemTime(SystemTime);

#[verifier::external_type_specification]
#[verifier::external_body]
pub struct ExSystemTimeError(SystemTimeError);

#[verifier::external_type_specification]
#[verifier::external_body]
pub struct ExInstant(Instant);

/// Calls `SystemTime::now`. Nothing is claimed of the reading.
#[verifier::external_body]
pub(crate) fn system_now() -> SystemTime {
    SystemTime::now()
}

/// Calls `SystemTime::duration_since` against the Unix epoch: the time since
/// 1970, or an error when the clock reads earlier. Nothing is claimed of
/// which, nor of the duration.
#[verifier::external_body]
pub(crate) fn since_unix_epoch(t: &SystemTime) -> Result<Duration, SystemTimeError> {
    t.duration_since(std::time::UNIX_EPOCH)
}

/// Calls `Duration::as_millis`: the whole milliseconds of `d`. Nothing is
/// claimed of their value.
#[verifier::external_body]
pub(crate) fn duration_millis(d: &Duration) -> u128 {
    d.as_millis()
}

/// Calls `Duration::subsec_nanos`; as std documents, the fraction of a second
/// it returns is below one billion nanoseconds.
#[verifier::external_body]
pub(crate) fn duration_subsec_nanos(d: &Duration) -> (nanos: u32)
    ensures
        nanos < 1_000_000_000,
{
    d.subsec_nanos()
}

/// Calls `Instant::now`. Nothing is claimed of the reading.
#[verifier::external_body]
pub(crate) fn instant_now() -> Instant {
    Instant::now()
}

/// Calls `Instant::elapsed`. Nothing is claimed of the time that passed.
#[verifier::external_body]
pub(crate) fn instant_elapsed(t: &Instant) -> Duration {
    t.elapsed()
}

} // verus!
