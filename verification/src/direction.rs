//! Cardinal directions for pig wandering and player facing, and the random
//! draw that picks a fresh wander direction.

use vstd::prelude::*;
use rand::Rng;

verus! {

/// The cardinal direction a pig currently wanders toward.
#[derive(Clone, Copy, Debug, PartialEq, Eq, Structural)]
pub enum Direction {
    Up,
    Down,
    Right,
    Left,
}

/// The direction the player sprite faces; it picks the animation row.
#[derive(Clone, Copy, Debug, PartialEq, Eq, Structural)]
pub enum FacingDirection {
    Up,
    Down,
    Left,
    Right,
}

impl Default for FacingDirection {
    /// A freshly spawned player faces down.
    fn default() -> (d: Self)
        ensures
            d == FacingDirection::Down,
    {
        FacingDirection::Down
    }
}

/// The cardinal direction that a draw from `0..4` selects.
pub open spec fn direction_of_roll(roll: u64) -> Direction {
    if roll == 0 {
        Direction::Up
    } else if roll == 1 {
        Direction::Down
    } else if roll == 2 {
        Direction::Right
    } else {
        Direction::Left
    }
}

/// Maps a draw from `0..4` to its cardinal direction.
pub fn direction_from_roll(roll: u64) -> (d: Direction)
    ensures
        d == direction_of_roll(roll),
{
    match roll {
        0 => Direction::Up,
        1 => Direction::Down,
        2 => Direction::Right,
        _ => Direction::Left,
    }
}

/// Distinct draws from `0..4` select distinct directions: two pigs whose
/// draws disagree end up wandering different ways.
pub proof fn lemma_roll_injective(a: u64, b: u64)
    requires
        a < 4,
        b < 4,
        a != b,
    ensures
        direction_of_roll(a) != direction_of_roll(b),
{
}

/// Relies on rand's `Rng::gen_range` over `thread_rng`: a draw from a
/// non-empty integer range lies in that range (here `0..4`), uniformly
/// distributed; the range is non-empty, so the call does not panic.
#[verifier::external_body]
pub(crate) fn roll_direction_index() -> (r: u64)
    ensures
        r < 4,
{
    rand::thread_rng().gen_range(0u64..4)
}

/// Draws a fresh wander direction uniformly at random. Every construction
/// site that wants a random direction calls this factory; nothing picks one
/// implicitly.
pub fn random_direction() -> (d: Direction)
    ensures
        exists|r: u64| r < 4 && d == direction_of_roll(r),
{
    let roll = roll_direction_index();
    let d = direction_from_roll(roll);
    proof {
        assert(roll < 4 && d == direction_of_roll(roll));
    }
    d
}

} // verus!
