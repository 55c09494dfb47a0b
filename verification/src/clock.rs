//! The boundary to the system clock. Nothing can be promised of what a clock
//! reads, so the items here carry no postcondition.

use vstd::prelude::*;

verus! {

/// `std::time::SystemTime`, a reading of the system clock. Opaque here.
#[verifier::external_type_specification]
#[verifier::external_body]
pub struct ExSystemTime(std::time::SystemTime);

/// `std::time::SystemTimeError`, returned where one reading is asked to be
/// later than another and is not. Opaque here.
#[verifier::external_type_specification]
#[verifier::external_body]
pub struct ExSystemTimeError(std::time::SystemTimeError);

/// `SystemTime::now` reads the system clock.
pub assume_specification[ std::time::SystemTime::now ]() -> (reading: std::time::SystemTime);

/// Calls `SystemTime::duration_since` with `std::time::UNIX_EPOCH` as the
/// earlier point: the time elapsed from the epoch to `reading`, or an error
/// where `reading` lies before the epoch.
#[verifier::external_body]
fn since_unix_epoch(reading: &std::time::SystemTime) -> (elapsed: Result<
    std::time::Duration,
    std::time::SystemTimeError,
>) {
    reading.duration_since(std::time::UNIX_EPOCH)
}

/// `Duration::as_secs` gives the whole seconds of a duration.
pub assume_specification[ std::time::Duration::as_secs ](elapsed: &std::time::Duration) -> (seconds: u64);

/// Seconds since the Unix epoch by the system clock, `None` before the epoch.
/// No clause holds of every reading: `auth` states what is made of each one.
pub(crate) fn unix_time() -> (seconds: Option<u64>) {
    let reading = std::time::SystemTime::now();
    match since_unix_epoch(&reading) {
        Ok(elapsed) => Some(elapsed.as_secs()),
        Err(_) => None,
    }
}

} // verus!
