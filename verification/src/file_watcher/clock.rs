//! Wall-clock time for event timestamps.

use vstd::prelude::*;

verus! {

/// The timestamp that stands for a reading of the wall clock: the
/// milliseconds since the Unix epoch, capped at the largest `i64`, and zero
/// when the clock is set before the epoch.
pub open spec fn timestamp_of(since_epoch: Option<u128>) -> i64 {
    match since_epoch {
        Some(millis) => if millis <= i64::MAX {
            millis as i64
        } else {
            i64::MAX
        },
        None => 0,
    }
}

/// Reads the wall clock with `std::time::SystemTime::now` and hands back the
/// milliseconds since the Unix epoch, or nothing when the clock is set before
/// the epoch. The reading changes from call to call, so nothing is claimed of
/// it.
#[verifier::external_body]
pub(crate) fn unix_time_millis() -> Option<u128> {
    std::time::SystemTime::now().duration_since(std::time::UNIX_EPOCH).ok().map(|d| d.as_millis())
}

/// Computes [`timestamp_of`].
pub fn timestamp_from(since_epoch: Option<u128>) -> (timestamp: i64)
    ensures
        timestamp == timestamp_of(since_epoch),
{
    match since_epoch {
        Some(millis) => if millis <= 0x7FFF_FFFF_FFFF_FFFF {
            millis as i64
        } else {
            i64::MAX
        },
        None => 0,
    }
}

/// The current wall-clock time as an event timestamp. Never negative.
pub fn now_ms() -> (timestamp: i64)
    ensures
        timestamp >= 0,
{
    timestamp_from(unix_time_millis())
}

} // verus!
