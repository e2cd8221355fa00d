//! The wall clock.

use vstd::prelude::*;
use chrono::Utc;

verus! {

/// Whether `now` can be a reading of the clock. A reading counts whole days
/// in 32 bits and the seconds of the day in 32 bits more, so it stays far
/// from the ends of `i64`.
pub open spec fn is_clock_reading(now: i64) -> bool {
    -0x1_0000_0000_0000 < now < 0x1_0000_0000_0000
}

/// `Utc::now` and `DateTime::timestamp`: the current time in whole seconds
/// since the Unix epoch. Which reading comes back is left open. The call
/// panics where the system clock reads a time before 1970 or beyond the
/// largest date that chrono holds; no caller can rule that out, and the
/// library treats it as a fault of the machine.
#[verifier::external_body]
pub(crate) fn unix_now() -> (now: i64)
    ensures
        is_clock_reading(now),
{
    Utc::now().timestamp()
}

} // verus!
