//! Integer 2D vectors and the arithmetic core of the game: boundary
//! clamping, circle overlap and straight-line motion.
//!
//! Coordinates and sizes are thousandths of a pixel. The limits below are
//! far beyond any real window; they only keep every intermediate product
//! inside the machine integer types.

use vstd::prelude::*;

verus! {

/// Largest window dimension and sprite size, in thousandths of a pixel.
pub const MAX_DIM: i64 = 1_000_000_000_000;

/// Largest coordinate magnitude an entity may reach before confinement.
pub const MAX_POS: i64 = 1_000_000_000_000;

/// Largest coordinate magnitude the collision test accepts.
pub const MAX_COORD: i64 = 4_000_000_000_000;

/// Largest speed, in pixels per second.
pub const MAX_SPEED: i64 = 1_000;

/// Largest time step of a single frame, in milliseconds.
pub const MAX_TICK_MS: u64 = 1_000_000;

/// A point or direction in the plane.
#[derive(Clone, Copy, Debug, PartialEq, Eq, Structural)]
pub struct Vec2 {
    pub x: i64,
    pub y: i64,
}

impl Vec2 {
    /// Both coordinates are small enough for the collision test.
    pub open spec fn in_coord_range(self) -> bool {
        -MAX_COORD <= self.x <= MAX_COORD && -MAX_COORD <= self.y <= MAX_COORD
    }

    /// Both coordinates are small enough for one further frame of motion.
    pub open spec fn in_pos_range(self) -> bool {
        -MAX_POS <= self.x <= MAX_POS && -MAX_POS <= self.y <= MAX_POS
    }

    /// A unit step per axis: each component is -1, 0 or 1.
    pub open spec fn is_direction(self) -> bool {
        -1 <= self.x <= 1 && -1 <= self.y <= 1
    }
}

/// `v` forced into the interval `[lo, hi]`, values below `lo` first.
pub open spec fn clamped(v: int, lo: int, hi: int) -> int {
    if v < lo {
        lo
    } else if v > hi {
        hi
    } else {
        v
    }
}

pub open spec fn sq(v: int) -> int {
    v * v
}

/// Two circles of diameters `first_size` and `second_size` overlap when the
/// distance of their centers is at most the sum of their radii; squaring
/// both sides keeps the test in integers.
pub open spec fn collided(first_size: int, first: Vec2, second_size: int, second: Vec2) -> bool {
    4 * (sq(first.x - second.x) + sq(first.y - second.y)) <= sq(first_size + second_size)
}

/// Circle overlap does not depend on the order of the two circles.
pub proof fn lemma_collided_symmetric(first_size: int, first: Vec2, second_size: int, second: Vec2)
    ensures
        collided(first_size, first, second_size, second) == collided(
            second_size,
            second,
            first_size,
            first,
        ),
{
    assert(sq(first.x - second.x) == sq(second.x - first.x)) by (nonlinear_arith);
    assert(sq(first.y - second.y) == sq(second.y - first.y)) by (nonlinear_arith);
}

/// With a sane interval, clamping a clamped value changes nothing.
pub proof fn lemma_clamped_idempotent(v: int, lo: int, hi: int)
    requires
        lo <= hi,
    ensures
        clamped(clamped(v, lo, hi), lo, hi) == clamped(v, lo, hi),
{
}

/// With a sane interval, a clamped value lies inside it.
pub proof fn lemma_clamped_in_bounds(v: int, lo: int, hi: int)
    requires
        lo <= hi,
    ensures
        lo <= clamped(v, lo, hi) <= hi,
{
}

} // verus!
