//! The wall clock.

use vstd::prelude::*;

verus! {

/// `chrono::Utc::now` followed by `DateTime::timestamp`: the seconds that
/// have passed since the Unix epoch. `Utc::now` counts them from the epoch
/// on, so the result is never negative; it stops the process where the
/// system clock stands before the epoch.
#[verifier::external_body]
pub(crate) fn unix_seconds() -> (now: i64)
    ensures
        0 <= now,
{
    chrono::Utc::now().timestamp()
}

/// The current time in seconds since the Unix epoch: the clock's count, taken
/// as it is. The clock counts in a signed 64-bit number and never below
/// zero, so the time lies in the upper half of that number's range; which
/// time it is depends on the moment of the call.
pub(crate) fn current_time() -> (now: u64)
    ensures
        now <= i64::MAX,
{
    unix_seconds() as u64
}

} // verus!
