//! The bounded region that the stars live in, and points of it.

use std::ops::RangeInclusive;
use vstd::prelude::*;
use crate::units::TICKS_PER_UNIT;

verus! {

/// Half the side of the square region, in ticks: a star is inside while its
/// x and y lie in `[-SPACE_EXTENT, SPACE_EXTENT]`.
pub const SPACE_EXTENT: i64 = 1000 * TICKS_PER_UNIT;

/// A vector of three mathematical integers: what a `Position` or a velocity
/// stands for in contracts.
pub ghost struct Vector {
    pub x: int,
    pub y: int,
    pub z: int,
}

/// A point of the simulated space, each coordinate in ticks.
///
/// `x` and `y` place the star; `z` is its depth and takes no part in the
/// simulation's tests and directions.
#[derive(Clone, Copy, Debug, PartialEq, Eq, Structural)]
pub struct Position {
    pub x: i64,
    pub y: i64,
    pub z: i64,
}

impl View for Position {
    type V = Vector;

    open spec fn view(&self) -> Vector {
        Vector { x: self.x as int, y: self.y as int, z: self.z as int }
    }
}

/// Whether `v` lies in `[-bound, bound]`.
pub open spec fn within(v: int, bound: int) -> bool {
    -bound <= v <= bound
}

/// The whole extent of the space along one axis: `[-SPACE_EXTENT, SPACE_EXTENT]`.
pub fn space_extent() -> (range: RangeInclusive<i64>)
    ensures
        range@.start == -SPACE_EXTENT,
        range@.end == SPACE_EXTENT,
        !range@.exhausted,
{
    RangeInclusive::new(-SPACE_EXTENT, SPACE_EXTENT)
}

/// The middle half of the extent along one axis:
/// `[-SPACE_EXTENT / 2, SPACE_EXTENT / 2]`.
pub fn half_space_extent() -> (range: RangeInclusive<i64>)
    ensures
        range@.start == -(SPACE_EXTENT / 2),
        range@.end == SPACE_EXTENT / 2,
        !range@.exhausted,
{
    let half_extent: i64 = SPACE_EXTENT / 2;
    -half_extent..=half_extent
}

/// Whether a point has left the space: its x or its y is outside
/// `[-SPACE_EXTENT, SPACE_EXTENT]`. Depth is not looked at.
pub open spec fn is_outside(p: Vector) -> bool {
    !within(p.x, SPACE_EXTENT as int) || !within(p.y, SPACE_EXTENT as int)
}

/// Checks if a location is outside of the space extent.
pub fn outside_extent(t: Position) -> (outside: bool)
    ensures
        outside == is_outside(t@),
{
    !space_extent().contains(&t.x) || !space_extent().contains(&t.y)
}

} // verus!
