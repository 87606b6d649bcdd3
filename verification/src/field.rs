//! The whole population of stars, and the stages that a frame runs over it.

use vstd::prelude::*;
use crate::random::rand_in_range;
use crate::space::{half_space_extent, space_extent, within, Position, Vector, SPACE_EXTENT};
use crate::star::{accelerated, advanced, reset_outcome, speed_in_range, Star, StarModel};

verus! {

/// How many stars the field holds.
pub const NUM_STARS: u32 = 1300;

/// Whether every star of the population has its base speed in range.
pub open spec fn all_well_formed(stars: Seq<Star>) -> bool {
    forall|i: int| 0 <= i < stars.len() ==> (#[trigger] stars[i]).well_formed()
}

/// What a star may be when the field is set up: anywhere in the whole
/// extent in x and y, in the middle half of it in depth, at rest, with some
/// base speed of the range.
pub open spec fn freshly_spawned(s: StarModel) -> bool {
    &&& within(s.position.x, SPACE_EXTENT as int)
    &&& within(s.position.y, SPACE_EXTENT as int)
    &&& within(s.position.z, SPACE_EXTENT / 2)
    &&& s.velocity == (Vector { x: 0, y: 0, z: 0 })
    &&& speed_in_range(s.base_speed)
}

/// What one frame may make of a star: the reset's outcome, with its velocity
/// set anew and then moved along it.
pub open spec fn frame_outcome(before: StarModel, after: StarModel, dt: int) -> bool {
    exists|mid: StarModel| #[trigger]
        reset_outcome(before, mid) && after == advanced(accelerated(mid, dt), dt)
}

/// A reset of the whole population: star by star, each by itself.
pub open spec fn reset_pass(before: Seq<Star>, after: Seq<Star>) -> bool {
    &&& after.len() == before.len()
    &&& forall|i: int| 0 <= i < before.len() ==> reset_outcome(before[i]@, #[trigger] after[i]@)
}

/// A velocity update of the whole population.
pub open spec fn velocity_pass(before: Seq<Star>, after: Seq<Star>, dt: int) -> bool {
    &&& after.len() == before.len()
    &&& forall|i: int| 0 <= i < before.len() ==> #[trigger] after[i]@ == accelerated(before[i]@, dt)
}

/// A position integration of the whole population.
pub open spec fn move_pass(before: Seq<Star>, after: Seq<Star>, dt: int) -> bool {
    &&& after.len() == before.len()
    &&& forall|i: int| 0 <= i < before.len() ==> #[trigger] after[i]@ == advanced(before[i]@, dt)
}

/// One frame over the whole population: reset, then velocity update, then
/// position integration, in this order.
pub open spec fn frame_pass(before: Seq<Star>, after: Seq<Star>, dt: int) -> bool {
    &&& after.len() == before.len()
    &&& forall|i: int|
        0 <= i < before.len() ==> frame_outcome(before[i]@, #[trigger] after[i]@, dt)
}

/// Sets up the starfield: `NUM_STARS` stars spread at random over the whole
/// extent, so that the first frame already shows a populated field.
pub fn setup() -> (stars: Vec<Star>)
    ensures
        stars@.len() == NUM_STARS,
        forall|i: int| 0 <= i < stars@.len() ==> freshly_spawned(#[trigger] stars@[i]@),
        all_well_formed(stars@),
{
    let mut stars: Vec<Star> = Vec::new();
    let mut n: u32 = 0;
    while n < NUM_STARS
        invariant
            n <= NUM_STARS,
            stars@.len() == n,
            forall|i: int| 0 <= i < stars@.len() ==> freshly_spawned(#[trigger] stars@[i]@),
            all_well_formed(stars@),
        decreases NUM_STARS - n,
    {
        let x: i64 = rand_in_range(space_extent());
        let y: i64 = rand_in_range(space_extent());
        let z: i64 = rand_in_range(half_space_extent());
        let mut star = Star::default();
        star.position = Position { x, y, z };
        stars.push(star);
        n += 1;
    }
    stars
}

/// Takes stars outside the space extent and places them back inside.
///
/// Each star outside gets a position and a base speed of its own, drawn
/// afresh; the stars inside are not touched.
pub fn reset_stars(stars: &mut Vec<Star>)
    ensures
        reset_pass(old(stars)@, final(stars)@),
        all_well_formed(old(stars)@) ==> all_well_formed(final(stars)@),
{
    let mut i: usize = 0;
    while i < stars.len()
        invariant
            i <= stars@.len(),
            stars@.len() == old(stars)@.len(),
            forall|j: int| 0 <= j < i ==> reset_outcome(old(stars)@[j]@, #[trigger] stars@[j]@),
            forall|j: int| i <= j < stars@.len() ==> stars@[j] == old(stars)@[j],
            all_well_formed(old(stars)@) ==> all_well_formed(stars@),
        decreases stars@.len() - i,
    {
        let mut star = stars[i];
        star.reset();
        stars.set(i, star);
        i += 1;
    }
}

/// Calculates velocity based on the speed of the star as well as the current
/// acceleration: every star's velocity is set anew from where it is now.
pub fn calculate_velocity(dt: u32, stars: &mut Vec<Star>)
    requires
        all_well_formed(old(stars)@),
    ensures
        velocity_pass(old(stars)@, final(stars)@, dt as int),
        all_well_formed(final(stars)@),
{
    let mut i: usize = 0;
    while i < stars.len()
        invariant
            i <= stars@.len(),
            stars@.len() == old(stars)@.len(),
            all_well_formed(old(stars)@),
            all_well_formed(stars@),
            forall|j: int|
                0 <= j < i ==> #[trigger] stars@[j]@ == accelerated(old(stars)@[j]@, dt as int),
            forall|j: int| i <= j < stars@.len() ==> stars@[j] == old(stars)@[j],
        decreases stars@.len() - i,
    {
        let mut star = stars[i];
        star.update_velocity(dt);
        stars.set(i, star);
        i += 1;
    }
}

/// Moves the stars based on their current velocity.
pub fn move_stars(dt: u32, stars: &mut Vec<Star>)
    ensures
        move_pass(old(stars)@, final(stars)@, dt as int),
        all_well_formed(old(stars)@) ==> all_well_formed(final(stars)@),
{
    let mut i: usize = 0;
    while i < stars.len()
        invariant
            i <= stars@.len(),
            stars@.len() == old(stars)@.len(),
            forall|j: int|
                0 <= j < i ==> #[trigger] stars@[j]@ == advanced(old(stars)@[j]@, dt as int),
            forall|j: int| i <= j < stars@.len() ==> stars@[j] == old(stars)@[j],
            all_well_formed(old(stars)@) ==> all_well_formed(stars@),
        decreases stars@.len() - i,
    {
        let mut star = stars[i];
        star.advance(dt);
        stars.set(i, star);
        i += 1;
    }
}

/// Runs one frame: the reset, the velocity update and the position
/// integration, in this order, so that a star that was just put back moves
/// with a velocity that fits its new place.
pub fn run_frame(dt: u32, stars: &mut Vec<Star>)
    requires
        all_well_formed(old(stars)@),
    ensures
        frame_pass(old(stars)@, final(stars)@, dt as int),
        all_well_formed(final(stars)@),
{
    reset_stars(stars);
    let ghost placed = stars@;
    calculate_velocity(dt, stars);
    let ghost aimed = stars@;
    move_stars(dt, stars);
    assert forall|i: int| 0 <= i < old(stars)@.len() implies frame_outcome(
        old(stars)@[i]@,
        #[trigger] stars@[i]@,
        dt as int,
    ) by {
        assert(aimed[i]@ == accelerated(placed[i]@, dt as int));
        assert(stars@[i]@ == advanced(aimed[i]@, dt as int));
        assert(reset_outcome(old(stars)@[i]@, placed[i]@));
    }
}

} // verus!
