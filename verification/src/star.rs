//! One star: where it is, how fast it moves, and what each stage of a frame
//! makes of it.

use std::ops::RangeInclusive;
use vstd::prelude::*;
use vstd::arithmetic::div_mod::{lemma_fundamental_div_mod, lemma_hoist_over_denominator};
use crate::random::rand_in_range;
use crate::space::{half_space_extent, is_outside, outside_extent, within, Position, Vector, SPACE_EXTENT};
use crate::units::{COUNT_MICROS_PER_TICK, STEPS_PER_UNIT};

verus! {

/// The factor, in steps, by which distance turns into acceleration.
pub const ACCELERATION_MULTIPLIER: i64 = 1 * STEPS_PER_UNIT;

/// The least base speed of a star, in steps.
pub const MIN_SPEED: i64 = 10 * STEPS_PER_UNIT;

/// The greatest base speed of a star, in steps.
pub const MAX_SPEED: i64 = 80 * STEPS_PER_UNIT;

/// The greatest growth rate of a frame: `ACCELERATION_MULTIPLIER` times the
/// longest elapsed time times `MAX_SPEED`.
pub const MAX_GROWTH_RATE: i128 = 343_597_383_600_000_000;

/// A velocity, each component in velocity counts.
#[derive(Clone, Copy, Debug, PartialEq, Eq, Structural)]
pub struct Velocity {
    pub x: i128,
    pub y: i128,
    pub z: i128,
}

impl View for Velocity {
    type V = Vector;

    open spec fn view(&self) -> Vector {
        Vector { x: self.x as int, y: self.y as int, z: self.z as int }
    }
}

/// A star of the field.
#[derive(Clone, Copy, Debug, PartialEq, Eq, Structural)]
pub struct Star {
    /// Where the star is.
    pub position: Position,
    /// How it moves: set anew from the position in every frame.
    pub velocity: Velocity,
    /// The star's own speed factor, in steps.
    pub base_speed: i64,
}

/// A star over the mathematical integers.
pub ghost struct StarModel {
    pub position: Vector,
    pub velocity: Vector,
    pub base_speed: int,
}

impl View for Star {
    type V = StarModel;

    open spec fn view(&self) -> StarModel {
        StarModel {
            position: self.position@,
            velocity: self.velocity@,
            base_speed: self.base_speed as int,
        }
    }
}

/// Whether a base speed lies in `[MIN_SPEED, MAX_SPEED]`.
pub open spec fn speed_in_range(base_speed: int) -> bool {
    MIN_SPEED <= base_speed <= MAX_SPEED
}

/// Whether all three coordinates lie in `[-SPACE_EXTENT / 2, SPACE_EXTENT / 2]`.
pub open spec fn in_half_extent(p: Vector) -> bool {
    &&& within(p.x, SPACE_EXTENT / 2)
    &&& within(p.y, SPACE_EXTENT / 2)
    &&& within(p.z, SPACE_EXTENT / 2)
}

/// The growth rate of a star for one frame: acceleration multiplier times
/// elapsed time times base speed. Its velocity is this rate times its
/// planar position.
pub open spec fn growth_rate(dt: int, base_speed: int) -> int {
    ACCELERATION_MULTIPLIER * dt * base_speed
}

/// The velocity of a star at `p`: it points from the origin to `(p.x, p.y, 0)`
/// and its magnitude is the distance from the origin times the growth rate.
///
/// The unit direction times the distance is the planar position itself, so the
/// velocity is the planar position times the growth rate, with no root to
/// take; at the origin, where there is no direction, it is the zero vector.
pub open spec fn radial_velocity(p: Vector, dt: int, base_speed: int) -> Vector {
    Vector { x: p.x * growth_rate(dt, base_speed), y: p.y * growth_rate(dt, base_speed), z: 0 }
}

/// `n / d` rounded toward zero, for a positive `d`.
pub open spec fn toward_zero(n: int, d: int) -> int {
    if n >= 0 {
        n / d
    } else {
        -((-n) / d)
    }
}

/// The nearest coordinate to `n` that a position can hold.
pub open spec fn clamp_coordinate(n: int) -> int {
    if n < i64::MIN {
        i64::MIN as int
    } else if n > i64::MAX {
        i64::MAX as int
    } else {
        n
    }
}

/// The whole ticks that a velocity component covers in `dt` microseconds:
/// what is left of a tick is dropped.
pub open spec fn displacement(v: int, dt: int) -> int {
    toward_zero(v * dt, COUNT_MICROS_PER_TICK as int)
}

/// A coordinate after `dt` microseconds at velocity component `v`, kept
/// within what a position can hold.
pub open spec fn advance_coordinate(p: int, v: int, dt: int) -> int {
    clamp_coordinate(p + displacement(v, dt))
}

/// The star with its velocity set anew from its position.
pub open spec fn accelerated(s: StarModel, dt: int) -> StarModel {
    StarModel { velocity: radial_velocity(s.position, dt, s.base_speed), ..s }
}

/// The star moved along its velocity for `dt` microseconds.
pub open spec fn advanced(s: StarModel, dt: int) -> StarModel {
    StarModel {
        position: Vector {
            x: advance_coordinate(s.position.x, s.velocity.x, dt),
            y: advance_coordinate(s.position.y, s.velocity.y, dt),
            z: advance_coordinate(s.position.z, s.velocity.z, dt),
        },
        ..s
    }
}

/// The star put at `position` with `base_speed`; its velocity is left as it
/// was, to be set anew by the next velocity update.
pub open spec fn respawned(s: StarModel, position: Vector, base_speed: int) -> StarModel {
    StarModel { position, base_speed, ..s }
}

/// What a reset may make of a star: one that is inside stays as it is; one
/// that is outside is put somewhere in the middle half of the extent, with
/// some base speed of the range.
pub open spec fn reset_outcome(before: StarModel, after: StarModel) -> bool {
    if is_outside(before.position) {
        exists|position: Vector, base_speed: int|
            in_half_extent(position) && speed_in_range(base_speed) && after == #[trigger] respawned(
                before,
                position,
                base_speed,
            )
    } else {
        after == before
    }
}

/// The range that base speeds are drawn from: `[MIN_SPEED, MAX_SPEED]`.
pub fn move_speed_range() -> (range: RangeInclusive<i64>)
    ensures
        range@.start == MIN_SPEED,
        range@.end == MAX_SPEED,
        !range@.exhausted,
{
    MIN_SPEED..=MAX_SPEED
}

/// One component of a radial velocity: the coordinate times the rate.
fn radial_component(coordinate: i64, rate: i128) -> (component: i128)
    requires
        0 <= rate <= MAX_GROWTH_RATE,
    ensures
        component == coordinate * rate,
{
    assert(i128::MIN <= coordinate * rate <= i128::MAX) by (nonlinear_arith)
        requires
            i64::MIN <= coordinate <= i64::MAX,
            0 <= rate <= MAX_GROWTH_RATE,
            MAX_GROWTH_RATE == 343_597_383_600_000_000,
    ;
    (coordinate as i128) * rate
}

/// One coordinate moved for `dt` microseconds at velocity component
/// `velocity`.
fn advance_component(coordinate: i64, velocity: i128, dt: u32) -> (moved: i64)
    ensures
        moved == advance_coordinate(coordinate as int, velocity as int, dt as int),
{
    let elapsed: u128 = dt as u128;
    let backward: bool = velocity < 0;
    let magnitude: u128 = if backward {
        ((-(velocity + 1)) as u128) + 1
    } else {
        velocity as u128
    };
    let whole: u128 = magnitude / (COUNT_MICROS_PER_TICK as u128);
    let rest: u128 = magnitude % (COUNT_MICROS_PER_TICK as u128);
    proof {
        let d = COUNT_MICROS_PER_TICK as int;
        lemma_fundamental_div_mod(magnitude as int, d);
        assert(whole * elapsed <= 170141183460469231731 * 4294967295) by (nonlinear_arith)
            requires
                0 <= whole <= 170141183460469231731,
                0 <= elapsed <= 4294967295,
        ;
        assert(rest * elapsed <= 1_000_000_000_000_000_000 * 4294967295) by (nonlinear_arith)
            requires
                0 <= rest <= 1_000_000_000_000_000_000,
                0 <= elapsed <= 4294967295,
        ;
    }
    let ticks: u128 = whole * elapsed + (rest * elapsed) / (COUNT_MICROS_PER_TICK as u128);
    proof {
        let d = COUNT_MICROS_PER_TICK as int;
        let m = magnitude as int;
        let e = elapsed as int;
        let w = whole as int;
        let r = rest as int;
        assert(m * e == r * e + (w * e) * d) by (nonlinear_arith)
            requires
                m == d * w + r,
        ;
        lemma_hoist_over_denominator(r * e, w * e, d as nat);
        assert(ticks == (m * e) / d);
        if backward {
            assert(-(velocity * e) == m * e && velocity * e <= 0) by (nonlinear_arith)
                requires
                    m == -velocity,
                    velocity < 0,
                    e >= 0,
            ;
        } else {
            assert(velocity * e == m * e && velocity * e >= 0) by (nonlinear_arith)
                requires
                    m == velocity,
                    velocity >= 0,
                    e >= 0,
            ;
        }
    }
    let target: i128 = if backward {
        (coordinate as i128) - (ticks as i128)
    } else {
        (coordinate as i128) + (ticks as i128)
    };
    if target < i64::MIN as i128 {
        i64::MIN
    } else if target > i64::MAX as i128 {
        i64::MAX
    } else {
        target as i64
    }
}

impl Star {
    /// Whether the base speed lies in `[MIN_SPEED, MAX_SPEED]`, as it does
    /// for every star that the library makes or resets.
    pub open spec fn well_formed(&self) -> bool {
        speed_in_range(self.base_speed as int)
    }

    /// Whether the base speed lies in `[MIN_SPEED, MAX_SPEED]`.
    pub fn is_well_formed(&self) -> (ok: bool)
        ensures
            ok == self.well_formed(),
    {
        MIN_SPEED <= self.base_speed && self.base_speed <= MAX_SPEED
    }

    /// Puts the star at `position` with `base_speed`. The velocity is not
    /// touched: the next velocity update sets it from the new position.
    pub fn respawn(&mut self, position: Position, base_speed: i64)
        ensures
            final(self)@ == respawned(old(self)@, position@, base_speed as int),
    {
        self.position = position;
        self.base_speed = base_speed;
    }

    /// Takes the star back into the space if it has left it: a star outside
    /// the extent gets a fresh random position in the middle half of the
    /// extent and a fresh random base speed; a star inside is left as it is.
    pub fn reset(&mut self)
        ensures
            reset_outcome(old(self)@, final(self)@),
            old(self).well_formed() ==> final(self).well_formed(),
    {
        if outside_extent(self.position) {
            let x: i64 = rand_in_range(half_space_extent());
            let y: i64 = rand_in_range(half_space_extent());
            let z: i64 = rand_in_range(half_space_extent());
            let base_speed: i64 = rand_in_range(move_speed_range());
            let position = Position { x, y, z };
            self.respawn(position, base_speed);
            assert(self@ == respawned(old(self)@, position@, base_speed as int));
        }
    }

    /// Sets the velocity from the position: away from the origin, faster the
    /// farther out, scaled by the elapsed time and the star's base speed.
    /// What the velocity was before plays no part.
    pub fn update_velocity(&mut self, dt: u32)
        requires
            old(self).well_formed(),
        ensures
            final(self)@ == accelerated(old(self)@, dt as int),
    {
        assert(0 <= ACCELERATION_MULTIPLIER * dt * self.base_speed <= MAX_GROWTH_RATE)
            by (nonlinear_arith)
            requires
                ACCELERATION_MULTIPLIER == 1000,
                MAX_GROWTH_RATE == 1000 * 4294967295 * 80000,
                0 <= dt <= 4294967295,
                0 <= self.base_speed <= 80000,
        ;
        let rate: i128 = (ACCELERATION_MULTIPLIER as i128) * (dt as i128) * (self.base_speed as i128);
        self.velocity = Velocity {
            x: radial_component(self.position.x, rate),
            y: radial_component(self.position.y, rate),
            z: 0,
        };
    }

    /// Moves the star along its velocity for `dt` microseconds, each axis by
    /// itself. A coordinate that would pass the end of what a position can
    /// hold stops there.
    pub fn advance(&mut self, dt: u32)
        ensures
            final(self)@ == advanced(old(self)@, dt as int),
    {
        self.position = Position {
            x: advance_component(self.position.x, self.velocity.x, dt),
            y: advance_component(self.position.y, self.velocity.y, dt),
            z: advance_component(self.position.z, self.velocity.z, dt),
        };
    }
}

impl Default for Star {
    /// A star at rest at the origin, with a fresh random base speed.
    fn default() -> (star: Star)
        ensures
            star.position@ == (Vector { x: 0, y: 0, z: 0 }),
            star.velocity@ == (Vector { x: 0, y: 0, z: 0 }),
            star.well_formed(),
    {
        let base_speed: i64 = rand_in_range(move_speed_range());
        let velocity = Velocity { x: 0, y: 0, z: 0 };
        Star { position: Position { x: 0, y: 0, z: 0 }, velocity, base_speed }
    }
}

} // verus!
