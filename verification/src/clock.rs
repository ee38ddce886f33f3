//! The clock, read through the crates that the stored values come from.

use vstd::prelude::*;

verus! {

/// The system clock, `std::time::SystemTime::now`, as chrono reads it
/// (`DateTime::<Utc>::from`), in seconds since the epoch
/// (`DateTime::timestamp`): negative for a clock that stands before 1970.
///
/// Trusted: nothing is claimed of the time read. The call panics where the
/// clock stands outside the years that chrono can hold.
#[verifier::external_body]
fn utc_seconds() -> i64 {
    chrono::DateTime::<chrono::Utc>::from(std::time::SystemTime::now()).timestamp()
}

/// `bson::DateTime::now`, as milliseconds since the epoch
/// (`DateTime::timestamp_millis`).
///
/// Trusted: nothing is claimed of the time read.
#[verifier::external_body]
fn bson_millis() -> i64 {
    bson::DateTime::now().timestamp_millis()
}

/// The time in seconds since the epoch: what `epoch_seconds` makes of the
/// reading that the clock gave. Which reading that was is not fixed.
pub fn unix_time() -> (time: Option<u64>)
    ensures
        exists|reading: i64| time == #[trigger] epoch_seconds(reading),
{
    let reading: i64 = utc_seconds();
    let time = seconds_since_epoch(reading);
    assert(time == epoch_seconds(reading));
    time
}

/// The time in milliseconds since the epoch, as stored with a message.
pub fn timestamp_millis() -> i64 {
    bson_millis()
}

/// What a reading of the clock comes to, in seconds since the epoch: nothing
/// for a reading before the epoch.
pub open spec fn epoch_seconds(reading: i64) -> Option<u64> {
    if reading < 0 {
        None
    } else {
        Some(reading as u64)
    }
}

/// The seconds since the epoch that a reading of the clock comes to.
pub fn seconds_since_epoch(reading: i64) -> (time: Option<u64>)
    ensures
        time == epoch_seconds(reading),
{
    if reading < 0 {
        None
    } else {
        Some(reading as u64)
    }
}

} // verus!
