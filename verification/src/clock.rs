//! Reading the machine's clock as whole seconds since the UNIX epoch.
use vstd::prelude::*;
use std::time::{Duration, SystemTime, SystemTimeError, UNIX_EPOCH};

verus! {

#[verifier::external_type_specification]
#[verifier::external_body]
pub struct ExSystemTime(SystemTime);

#[verifier::external_type_specification]
#[verifier::external_body]
pub struct ExSystemTimeError(SystemTimeError);

/// `std::time::SystemTime::now`.
/// Trusted: nothing is stated of the reading, which is the machine's clock.
#[verifier::external_body]
fn clock_reading() -> (r: SystemTime) {
    SystemTime::now()
}

/// `SystemTime::duration_since(UNIX_EPOCH)`: the time elapsed since the epoch, or an
/// error where the reading lies before it.
/// Trusted: nothing is stated of the result, which depends on the reading's opaque value.
#[verifier::external_body]
fn since_epoch(t: &SystemTime) -> (r: Result<Duration, SystemTimeError>) {
    t.duration_since(UNIX_EPOCH)
}

/// `Duration::as_secs`: the whole seconds of a duration.
/// Trusted: nothing is stated of the value, the duration being opaque here.
#[verifier::external_body]
fn whole_seconds(d: &Duration) -> (r: u64) {
    d.as_secs()
}

/// The current UNIX time in seconds (0 if the clock reads before the epoch).
pub fn now_ts() -> (r: u64) {
    let reading = clock_reading();
    match since_epoch(&reading) {
        Ok(d) => whole_seconds(&d),
        Err(_) => 0,
    }
}

} // verus!
