//! The wall clock, read through the `chrono` crate.

use vstd::prelude::*;

verus! {

/// How far from the Unix epoch a time that the clock gives can lie, in
/// seconds either way.
pub const CLOCK_RANGE: i64 = 281474976710656;

/// Whether the clock can give a time: whether it lies within `CLOCK_RANGE`
/// of the epoch.
pub open spec fn clock_time(now: int) -> bool {
    -CLOCK_RANGE <= now <= CLOCK_RANGE
}

/// Calls `chrono::Utc::now` and takes the `timestamp` of what it returns:
/// the seconds since the Unix epoch at the moment of the call. `timestamp`
/// computes them from a count of days that it holds in 32 bits, each of
/// 86,400 seconds, and the seconds of the day, which it holds in 32 bits
/// too: so the value lies within `CLOCK_RANGE` of the epoch. Nothing else
/// is promised of it.
#[verifier::external_body]
pub(crate) fn current_timestamp() -> (now: i64)
    ensures
        clock_time(now as int),
{
    chrono::Utc::now().timestamp()
}

} // verus!
