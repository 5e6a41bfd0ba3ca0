//! Wall-clock time since the Unix epoch.
use std::time::{Duration, SystemTime, SystemTimeError, UNIX_EPOCH};
use vstd::prelude::*;

verus! {

/// `std::time::SystemTime`, carried through opaquely.
#[verifier::external_type_specification]
#[verifier::external_body]
pub struct ExSystemTime(SystemTime);

/// `std::time::SystemTimeError`, carried through opaquely.
#[verifier::external_type_specification]
#[verifier::external_body]
pub struct ExSystemTimeError(SystemTimeError);

/// Relies on `SystemTime::now`: the current wall-clock time. Nothing is
/// promised of its value.
pub assume_specification[ SystemTime::now ]() -> SystemTime;

/// Relies on `SystemTime::duration_since` with the Unix epoch as the earlier
/// time: the time elapsed since the epoch, or an error where `now` is earlier
/// than the epoch. Nothing is promised of which.
#[verifier::external_body]
fn since_epoch(now: &SystemTime) -> Result<Duration, SystemTimeError> {
    now.duration_since(UNIX_EPOCH)
}

/// Relies on `Duration::as_nanos`: the whole duration in nanoseconds.
pub assume_specification[ Duration::as_nanos ](d: &Duration) -> u128;

/// Nanoseconds since the Unix epoch; 0 if the clock reads earlier than the
/// epoch.
pub fn get_now_unix_time() -> u128 {
    match since_epoch(&SystemTime::now()) {
        Ok(d) => d.as_nanos(),
        Err(_) => 0,
    }
}

/// Milliseconds since the Unix epoch; 0 if the clock reads earlier than the
/// epoch.
pub fn get_now_milli_unix_time() -> u128 {
    get_now_unix_time() / 1_000_000
}

} // verus!
