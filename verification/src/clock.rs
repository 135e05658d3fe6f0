//! The wall clock, read as nanoseconds since the Unix epoch.

use std::time::{Duration, SystemTime, SystemTimeError};
use vstd::prelude::*;

verus! {

#[verifier::external_type_specification]
#[verifier::external_body]
pub struct ExSystemTime(std::time::SystemTime);

#[verifier::external_type_specification]
#[verifier::external_body]
pub struct ExSystemTimeError(std::time::SystemTimeError);

/// The number of whole nanoseconds that a `Duration` holds, as its
/// `as_nanos` gives it.
pub uninterp spec fn duration_nanos(elapsed: Duration) -> u128;

/// Why the clock could not be read.
#[derive(Clone, Copy, Debug, PartialEq, Eq, Structural)]
pub enum ClockError {
    /// The system clock is set to a moment before the Unix epoch.
    BeforeEpoch,
}

/// `SystemTime::now`: the current reading of the system clock. Nothing is
/// claimed of it.
#[verifier::external_body]
fn system_now() -> (now: SystemTime) {
    SystemTime::now()
}

/// `SystemTime::duration_since`, with the Unix epoch as the earlier moment:
/// the time from the epoch to `moment`, or the error std gives when `moment`
/// lies before the epoch. Nothing is claimed of either.
#[verifier::external_body]
fn since_unix_epoch(moment: &SystemTime) -> (elapsed: Result<Duration, SystemTimeError>) {
    moment.duration_since(SystemTime::UNIX_EPOCH)
}

/// `Duration::as_nanos`: the whole duration in nanoseconds. The number
/// depends on the duration alone, so the contract gives it its name.
#[verifier::external_body]
fn whole_nanos(elapsed: &Duration) -> (nanos: u128)
    ensures
        nanos == duration_nanos(*elapsed),
{
    elapsed.as_nanos()
}

/// Reads the system clock as nanoseconds since the Unix epoch. Fails when
/// the clock is set before the epoch; what the reading is depends on the
/// moment of the call alone.
pub fn unix_nanos() -> (reading: Result<u128, ClockError>) {
    let now = system_now();
    reading_since_epoch(since_unix_epoch(&now))
}

/// The clock reading that the time since the Unix epoch gives: its whole
/// nanoseconds where std could measure it, and `BeforeEpoch` where std found
/// the moment to lie before the epoch.
pub fn reading_since_epoch(
    elapsed: Result<Duration, SystemTimeError>,
) -> (reading: Result<u128, ClockError>)
    ensures
        reading == match elapsed {
            Ok(measured) => Ok::<u128, ClockError>(duration_nanos(measured)),
            Err(_) => Err::<u128, ClockError>(ClockError::BeforeEpoch),
        },
{
    match elapsed {
        Ok(elapsed) => Ok(whole_nanos(&elapsed)),
        Err(_) => Err(ClockError::BeforeEpoch),
    }
}

} // verus!
