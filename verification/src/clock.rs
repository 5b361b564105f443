//! The time of day, from the system's clock.

use vstd::prelude::*;

verus! {

/// The bound below which every reading of the clock lies: 2 to the 48th.
pub const CLOCK_BOUND: i64 = 0x1_0000_0000_0000;

/// `chrono::Utc::now`, in whole seconds since the start of 1970, as
/// `DateTime::timestamp` gives them. The clock decides the value; whatever it
/// is, it is not negative and lies below `CLOCK_BOUND`: `Utc::now` counts from
/// 1970 onwards, and a `DateTime` counts its days in 32 bits. On a machine
/// whose clock stands before 1970, `Utc::now` panics.
#[verifier::external_body]
pub(crate) fn current_timestamp() -> (t: i64)
    ensures
        0 <= t < CLOCK_BOUND,
{
    chrono::Utc::now().timestamp()
}

} // verus!
