//! The system clock, read as whole seconds since the Unix epoch.

use vstd::prelude::*;
use crate::defaults::EpochTime;
use crate::error::TotpError;

verus! {

/// A reading of the system clock.
#[verifier::external_type_specification]
#[verifier::external_body]
pub struct ExSystemTime(std::time::SystemTime);

/// The report that one time lies before another.
#[verifier::external_type_specification]
#[verifier::external_body]
pub struct ExSystemTimeError(std::time::SystemTimeError);

/// Calls `SystemTime::now`.
///
/// Trusted: nothing is claimed of the reading.
#[verifier::external_body]
fn system_now() -> (reading: std::time::SystemTime) {
    std::time::SystemTime::now()
}

/// Calls `SystemTime::duration_since` with `UNIX_EPOCH`.
///
/// Trusted: nothing is claimed of the result.
#[verifier::external_body]
fn since_unix_epoch(reading: &std::time::SystemTime) -> (elapsed: Result<
    std::time::Duration,
    std::time::SystemTimeError,
>) {
    reading.duration_since(std::time::UNIX_EPOCH)
}

/// Calls `Duration::as_secs`.
///
/// Trusted: nothing is claimed of the number.
#[verifier::external_body]
fn whole_seconds(elapsed: &std::time::Duration) -> (seconds: u64) {
    elapsed.as_secs()
}

/// The current time, or [`TotpError::Clock`] where the system clock shows a
/// time before the Unix epoch.
pub fn unix_time() -> (now: Result<EpochTime, TotpError>)
    ensures
        now matches Err(e) ==> e == TotpError::Clock,
{
    let reading = system_now();
    match since_unix_epoch(&reading) {
        Ok(elapsed) => Ok(whole_seconds(&elapsed)),
        Err(_) => Err(TotpError::Clock),
    }
}

} // verus!
