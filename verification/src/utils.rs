//! The clock.

use vstd::prelude::*;

verus! {

/// `std::time::SystemTime`, a reading of the system clock. Opaque to the
/// verifier.
#[verifier::external_type_specification]
#[verifier::external_body]
pub struct ExSystemTime(std::time::SystemTime);

/// The whole seconds from the epoch to a clock reading, as
/// `SystemTime::duration_since` measures them; none for a reading before
/// the epoch.
pub uninterp spec fn seconds_since_epoch(time: std::time::SystemTime) -> Option<u64>;

/// `SystemTime` is `Copy`: a clone is the same reading.
pub assume_specification[ <std::time::SystemTime as Clone>::clone ](
    time: &std::time::SystemTime,
) -> (r: std::time::SystemTime)
    ensures
        r == *time,
;

/// Calls `SystemTime::now`. Nothing is known of a clock reading.
#[verifier::external_body]
pub(crate) fn now() -> std::time::SystemTime {
    std::time::SystemTime::now()
}

/// Calls `SystemTime::duration_since` with the epoch and gives the whole
/// seconds of the result; there is none where the reading lies before the
/// epoch.
#[verifier::external_body]
pub(crate) fn epoch_seconds(time: &std::time::SystemTime) -> (r: Option<u64>)
    ensures
        r == seconds_since_epoch(*time),
{
    time.duration_since(std::time::SystemTime::UNIX_EPOCH).ok().map(|d| d.as_secs())
}

/// A clock reading in seconds since the epoch; a reading before the epoch
/// counts as the epoch.
pub open spec fn seconds_or_zero(time: std::time::SystemTime) -> u64 {
    match seconds_since_epoch(time) {
        Some(seconds) => seconds,
        None => 0,
    }
}

/// Gives a clock reading in seconds since the epoch.
pub fn seconds_of(time: &std::time::SystemTime) -> (r: u64)
    ensures
        r == seconds_or_zero(*time),
{
    match epoch_seconds(time) {
        Some(seconds) => seconds,
        None => 0,
    }
}

/// The seconds since the epoch on the system clock, now. Every call reads
/// the clock anew, so two calls may differ; what holds of each is that its
/// result is the seconds of one reading of the clock, zero for a reading
/// before the epoch.
pub fn unix_time() -> (r: u64)
    ensures
        exists|reading: std::time::SystemTime| r == #[trigger] seconds_or_zero(reading),
{
    let reading = now();
    seconds_of(&reading)
}

} // verus!
