//! What holds of the stages, whatever the stars and the elapsed time.

use vstd::prelude::*;
use crate::field::{all_well_formed, frame_outcome, frame_pass, move_pass, reset_pass, velocity_pass};
use crate::space::{is_outside, within, Vector, SPACE_EXTENT};
use crate::star::{
    accelerated, advanced, displacement, growth_rate, in_half_extent, reset_outcome,
    speed_in_range, Star, StarModel,
};
use crate::units::COUNT_MICROS_PER_TICK;

verus! {

/// The square of the length of the planar part `(x, y, 0)` of a vector.
/// Lengths are not negative, so they are ordered as their squares are.
pub open spec fn planar_length_squared(v: Vector) -> int {
    v.x * v.x + v.y * v.y
}

/// The square of the length of a vector.
pub open spec fn length_squared(v: Vector) -> int {
    v.x * v.x + v.y * v.y + v.z * v.z
}

/// Whether `v` is some non-negative multiple of the planar part of `p`: it
/// lies in the plane, along the line through the origin and `p`, on the
/// side of `p`.
pub open spec fn points_away_from_origin(v: Vector, p: Vector) -> bool {
    &&& v.z == 0
    &&& v.x * p.y == v.y * p.x
    &&& v.x * p.x + v.y * p.y >= 0
}

/// A run of frames: each population is what a frame made of the one before.
pub open spec fn is_run(history: Seq<Seq<Star>>, dts: Seq<int>) -> bool {
    &&& history.len() == dts.len() + 1
    &&& forall|k: int|
        0 <= k < dts.len() ==> frame_pass(#[trigger] history[k], history[k + 1], dts[k])
}

/// Bounds after a reset. Every star is then inside the extent in x and y. A
/// star that the reset had to put back lies in the middle half of the
/// extent in x, y and depth, with a base speed of the range; a star that was
/// inside keeps its place and its base speed.
pub proof fn reset_restores_bounds(before: StarModel, after: StarModel)
    requires
        reset_outcome(before, after),
    ensures
        !is_outside(after.position),
        is_outside(before.position) ==> in_half_extent(after.position) && speed_in_range(
            after.base_speed,
        ),
        !is_outside(before.position) ==> after == before,
        speed_in_range(before.base_speed) ==> speed_in_range(after.base_speed),
        after.velocity == before.velocity,
{
}

/// Bounds after a reset pass: every star of the population is inside the
/// extent, every star that was outside lies in the middle half of it, and
/// base speeds that were in range before are all in range after.
pub proof fn reset_pass_restores_bounds(before: Seq<Star>, after: Seq<Star>)
    requires
        reset_pass(before, after),
    ensures
        forall|i: int| 0 <= i < after.len() ==> !is_outside(#[trigger] after[i]@.position),
        forall|i: int|
            0 <= i < after.len() && is_outside(before[i]@.position) ==> in_half_extent(
                #[trigger] after[i]@.position,
            ) && after[i].well_formed(),
        all_well_formed(before) ==> all_well_formed(after),
{
    assert forall|i: int| 0 <= i < after.len() implies !is_outside(
        #[trigger] after[i]@.position,
    ) by {
        reset_restores_bounds(before[i]@, after[i]@);
    }
    assert forall|i: int|
        0 <= i < after.len() && is_outside(before[i]@.position) implies in_half_extent(
        #[trigger] after[i]@.position,
    ) && after[i].well_formed() by {
        reset_restores_bounds(before[i]@, after[i]@);
    }
    if all_well_formed(before) {
        assert forall|i: int| 0 <= i < after.len() implies (#[trigger] after[i]).well_formed() by {
            reset_restores_bounds(before[i]@, after[i]@);
            assert(before[i].well_formed());
        }
    }
}

/// After a velocity update the velocity is the growth rate times the planar
/// position, and the growth rate is not negative: the velocity points from
/// the origin to the star, or is zero.
pub proof fn velocity_is_radial(s: StarModel, dt: int)
    requires
        dt >= 0,
        s.base_speed >= 0,
    ensures
        growth_rate(dt, s.base_speed) >= 0,
        accelerated(s, dt).velocity.x == growth_rate(dt, s.base_speed) * s.position.x,
        accelerated(s, dt).velocity.y == growth_rate(dt, s.base_speed) * s.position.y,
        accelerated(s, dt).velocity.z == 0,
        points_away_from_origin(accelerated(s, dt).velocity, s.position),
        accelerated(s, dt).position == s.position,
        accelerated(s, dt).base_speed == s.base_speed,
{
    let c = growth_rate(dt, s.base_speed);
    let x = s.position.x;
    let y = s.position.y;
    assert(c >= 0) by (nonlinear_arith)
        requires
            c == 1000 * dt * s.base_speed,
            dt >= 0,
            s.base_speed >= 0,
    ;
    assert(x * c == c * x && y * c == c * y && (x * c) * y == (y * c) * x && (x * c) * x + (y * c)
        * y >= 0) by (nonlinear_arith)
        requires
            c >= 0,
    ;
}

/// A star whose x and y are both zero gets the zero velocity, whatever its
/// depth, its base speed and the elapsed time.
pub proof fn velocity_at_origin_is_zero(s: StarModel, dt: int)
    requires
        s.position.x == 0,
        s.position.y == 0,
    ensures
        accelerated(s, dt).velocity == (Vector { x: 0, y: 0, z: 0 }),
{
    let c = growth_rate(dt, s.base_speed);
    assert(0 * c == 0);
}

/// The magnitude of the velocity is the distance from the origin times the
/// growth rate: stated over the squares of both.
pub proof fn speed_is_distance_times_rate(s: StarModel, dt: int)
    ensures
        length_squared(accelerated(s, dt).velocity) == planar_length_squared(s.position) * (
        growth_rate(dt, s.base_speed) * growth_rate(dt, s.base_speed)),
{
    let c = growth_rate(dt, s.base_speed);
    let x = s.position.x;
    let y = s.position.y;
    assert((x * c) * (x * c) + (y * c) * (y * c) + 0 * 0 == (x * x + y * y) * (c * c))
        by (nonlinear_arith);
}

/// Of two stars with one base speed, updated for one elapsed time, the one
/// that is farther from the origin gets a velocity at least as great.
pub proof fn farther_is_faster(near: StarModel, far: StarModel, dt: int)
    requires
        near.base_speed == far.base_speed,
        planar_length_squared(near.position) <= planar_length_squared(far.position),
    ensures
        length_squared(accelerated(near, dt).velocity) <= length_squared(
            accelerated(far, dt).velocity,
        ),
{
    speed_is_distance_times_rate(near, dt);
    speed_is_distance_times_rate(far, dt);
    let c = growth_rate(dt, near.base_speed);
    let a = planar_length_squared(near.position);
    let b = planar_length_squared(far.position);
    assert(a * (c * c) <= b * (c * c)) by (nonlinear_arith)
        requires
            a <= b,
    ;
}

/// How far a velocity component carries in `dt` microseconds is the exact
/// product of the two, less the part of a tick that is dropped: the
/// displacement lies between zero and the exact value, less than one tick
/// from it, and equals it where it is a whole number of ticks.
pub proof fn displacement_is_exact_to_a_tick(v: int, dt: int)
    ensures
        ({
            let exact = v * dt;
            let whole = displacement(v, dt) * COUNT_MICROS_PER_TICK;
            &&& exact >= 0 ==> 0 <= whole <= exact < whole + COUNT_MICROS_PER_TICK
            &&& exact <= 0 ==> whole - COUNT_MICROS_PER_TICK < exact <= whole <= 0
            &&& exact % (COUNT_MICROS_PER_TICK as int) == 0 ==> whole == exact
        }),
{
    let n = v * dt;
    let d = COUNT_MICROS_PER_TICK as int;
    assert(d == 1_000_000_000_000_000_000);
    if n >= 0 {
        assert(n == d * (n / d) + n % d);
    } else {
        assert(-n == d * ((-n) / d) + (-n) % d);
        if n % d == 0 {
            assert((-n) % d == 0);
        }
    }
}

/// Position integration yields the old position plus velocity times elapsed
/// time, each axis by itself: where the sum fits a coordinate, the new
/// coordinate is the old one plus the displacement. Velocity and base speed
/// are not touched.
pub proof fn advance_adds_displacement(s: StarModel, dt: int)
    ensures
        advanced(s, dt).velocity == s.velocity,
        advanced(s, dt).base_speed == s.base_speed,
        i64::MIN <= s.position.x + displacement(s.velocity.x, dt) <= i64::MAX ==> advanced(
            s,
            dt,
        ).position.x == s.position.x + displacement(s.velocity.x, dt),
        i64::MIN <= s.position.y + displacement(s.velocity.y, dt) <= i64::MAX ==> advanced(
            s,
            dt,
        ).position.y == s.position.y + displacement(s.velocity.y, dt),
        i64::MIN <= s.position.z + displacement(s.velocity.z, dt) <= i64::MAX ==> advanced(
            s,
            dt,
        ).position.z == s.position.z + displacement(s.velocity.z, dt),
{
}

/// In a frame no coordinate is cut short. A star inside the extent, with
/// its velocity just set for an elapsed time that a frame can have, moves by
/// the full displacement in x and y and keeps its depth.
pub proof fn frame_moves_in_full(s: StarModel, dt: int)
    requires
        !is_outside(s.position),
        i64::MIN <= s.position.z <= i64::MAX,
        speed_in_range(s.base_speed),
        0 <= dt <= u32::MAX,
    ensures
        advanced(accelerated(s, dt), dt).position.x == s.position.x + displacement(
            s.position.x * growth_rate(dt, s.base_speed),
            dt,
        ),
        advanced(accelerated(s, dt), dt).position.y == s.position.y + displacement(
            s.position.y * growth_rate(dt, s.base_speed),
            dt,
        ),
        advanced(accelerated(s, dt), dt).position.z == s.position.z,
{
    let c = growth_rate(dt, s.base_speed);
    assert(0 <= c <= 343597383600000000) by (nonlinear_arith)
        requires
            c == 1000 * dt * s.base_speed,
            0 <= dt <= 4294967295,
            10000 <= s.base_speed <= 80000,
    ;
    frame_axis_fits(s.position.x, c, dt);
    frame_axis_fits(s.position.y, c, dt);
    assert(0 * dt == 0);
}

/// A star is what its model says: two stars with one model are one star, so
/// a contract that names the model names the star.
pub proof fn model_is_faithful(a: Star, b: Star)
    requires
        a@ == b@,
    ensures
        a == b,
{
    assert(a.position@ == b.position@);
    assert(a.velocity@ == b.velocity@);
}

/// One axis of `frame_moves_in_full`: from inside the extent, one frame's
/// displacement stays far within what a coordinate can hold.
proof fn frame_axis_fits(p: int, c: int, dt: int)
    requires
        within(p, SPACE_EXTENT as int),
        0 <= c <= 343597383600000000,
        0 <= dt <= u32::MAX,
    ensures
        i64::MIN <= p + displacement(p * c, dt) <= i64::MAX,
{
    let n = (p * c) * dt;
    let d = COUNT_MICROS_PER_TICK as int;
    assert(d == 1_000_000_000_000_000_000);
    assert(-1_000_000_000 <= p <= 1_000_000_000);
    assert(-1_000_000_000 * (343597383600000000 * 4294967295) <= n <= 1_000_000_000 * (
    343597383600000000 * 4294967295)) by (nonlinear_arith)
        requires
            n == (p * c) * dt,
            -1_000_000_000 <= p <= 1_000_000_000,
            0 <= c <= 343597383600000000,
            0 <= dt <= 4294967295,
    ;
    displacement_is_exact_to_a_tick(p * c, dt);
}

/// The population is constant: after any number of frames there are as many
/// stars as at the start, and their base speeds are still in range.
pub proof fn population_is_constant(history: Seq<Seq<Star>>, dts: Seq<int>, k: int)
    requires
        is_run(history, dts),
        0 <= k < history.len(),
    ensures
        history[k].len() == history[0].len(),
        all_well_formed(history[0]) ==> all_well_formed(history[k]),
    decreases k,
{
    if k > 0 {
        population_is_constant(history, dts, k - 1);
        assert(frame_pass(history[k - 1], history[k - 1 + 1], dts[k - 1]));
        frame_keeps_population(history[k - 1], history[k], dts[k - 1]);
    }
}

/// One frame keeps the number of stars, and keeps base speeds in range.
pub proof fn frame_keeps_population(before: Seq<Star>, after: Seq<Star>, dt: int)
    requires
        frame_pass(before, after, dt),
    ensures
        after.len() == before.len(),
        all_well_formed(before) ==> all_well_formed(after),
{
    if all_well_formed(before) {
        assert forall|i: int| 0 <= i < after.len() implies (#[trigger] after[i]).well_formed() by {
            assert(before[i].well_formed());
            assert(frame_outcome(before[i]@, after[i]@, dt));
            let mid = choose|mid: StarModel| #[trigger]
                reset_outcome(before[i]@, mid) && after[i]@ == advanced(accelerated(mid, dt), dt);
            reset_restores_bounds(before[i]@, mid);
        }
    }
}

/// Each stage keeps the number of stars.
pub proof fn stages_keep_population(before: Seq<Star>, after: Seq<Star>, dt: int)
    requires
        reset_pass(before, after) || velocity_pass(before, after, dt) || move_pass(
            before,
            after,
            dt,
        ),
    ensures
        after.len() == before.len(),
{
}

} // verus!
