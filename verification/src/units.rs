//! The fixed steps in which lengths, factors, time and velocities are counted.

use vstd::prelude::*;

verus! {

/// Position ticks in one unit of length.
pub const TICKS_PER_UNIT: i64 = 1_000_000;

/// Steps in one unit of a dimensionless factor: a base speed or the
/// acceleration multiplier.
pub const STEPS_PER_UNIT: i64 = 1_000;

/// Microseconds in one second: elapsed time is counted in microseconds.
pub const MICROS_PER_SECOND: u32 = 1_000_000;

/// Velocity counts in one tick per second.
///
/// A velocity is the exact product of a coordinate in ticks, two factors in
/// steps and an elapsed time in microseconds, so one tick per second is
/// `STEPS_PER_UNIT * STEPS_PER_UNIT * MICROS_PER_SECOND` counts.
pub const COUNTS_PER_TICK_PER_SECOND: i128 = 1_000_000_000_000;

/// Velocity counts times microseconds in one tick of displacement:
/// `COUNTS_PER_TICK_PER_SECOND * MICROS_PER_SECOND`.
pub const COUNT_MICROS_PER_TICK: i128 = 1_000_000_000_000_000_000;

} // verus!
