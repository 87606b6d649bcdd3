//! The library's one source of chance.

use std::ops::RangeInclusive;
use rand::Rng;
use vstd::prelude::*;

verus! {

/// Generates a random value within a range.
///
/// Trusted, not proved: the body is `rand::thread_rng().gen_range(range)`.
/// `gen_range` panics on an empty range, which `requires` leaves out; for an
/// inclusive range of integers it returns the range's start plus an offset
/// below the range's size, so the value lies between start and end, both
/// included. Which value comes is the generator's choice: nothing more is
/// claimed, and two calls on one range may differ. `thread_rng` itself
/// fails only where the system cannot seed the thread's generator.
#[verifier::external_body]
pub(crate) fn rand_in_range(range: RangeInclusive<i64>) -> (value: i64)
    requires
        range@.start <= range@.end,
    ensures
        range@.start <= value <= range@.end,
{
    rand::thread_rng().gen_range(range)
}

} // verus!
