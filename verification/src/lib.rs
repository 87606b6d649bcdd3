//! A starfield that streams radially away from a fixed origin.
//!
//! A frame runs three stages over the whole population, in this order: stars
//! that have left the space are put back near the origin, every star's
//! velocity is set anew from where it is, and every star moves along its
//! velocity.
//!
//! Every quantity is an exact integer count of a fixed step, so that each
//! stage has a contract over the integers: lengths are counted in ticks,
//! factors in steps, time in microseconds, and a velocity is the exact
//! product of the three.

pub mod units;
pub mod space;
mod random;
pub mod star;
pub mod field;
pub mod laws;

pub use field::{calculate_velocity, move_stars, reset_stars, run_frame, setup, NUM_STARS};
pub use space::{half_space_extent, outside_extent, space_extent, Position, SPACE_EXTENT};
pub use star::{
    move_speed_range, Star, Velocity, ACCELERATION_MULTIPLIER, MAX_SPEED, MIN_SPEED,
};
