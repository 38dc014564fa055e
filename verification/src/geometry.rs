//! 2D world positions, in thousandths of a world unit.
//!
//! With time in milliseconds and speeds in world units per second, a frame's
//! displacement `speed * dt` lands exactly in thousandths, so movement is
//! exact integer arithmetic.

use vstd::prelude::*;

verus! {

/// A point in the world plane, both axes in thousandths of a world unit.
#[derive(Clone, Copy, Debug, PartialEq, Eq, Structural)]
pub struct Position {
    pub x: i64,
    pub y: i64,
}

} // verus!
