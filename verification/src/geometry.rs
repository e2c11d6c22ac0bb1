//! Plain integer geometry: 2D vectors, the rectangular arena, and the
//! circle-circle overlap test used by the collision evaluator.
//!
//! Coordinates are game units held in `i64`. Everything the simulation
//! touches stays well inside `COORD_LIMIT`, which keeps every product that
//! the overlap test forms inside `i64`.

use vstd::prelude::*;

verus! {

/// Largest magnitude a coordinate or arena dimension may take. Squares of
/// differences of such values still fit in `i64`.
pub const COORD_LIMIT: i64 = 1_000_000_000;

/// Largest magnitude a velocity component (game units per second) may take.
pub const SPEED_LIMIT: i64 = 1_000_000;

/// A 2D point or velocity in game units.
#[derive(Clone, Copy, Debug, PartialEq, Eq, Structural)]
pub struct Vec2 {
    pub x: i64,
    pub y: i64,
}

impl Vec2 {
    /// Both components within `limit` in magnitude.
    pub open spec fn bounded(self, limit: int) -> bool {
        -limit <= self.x <= limit && -limit <= self.y <= limit
    }

    pub fn new(x: i64, y: i64) -> (v: Vec2)
        ensures
            v == (Vec2 { x, y }),
    {
        Vec2 { x, y }
    }
}

/// The rectangular playfield. Confined entities keep their centre within
/// `[radius, width - radius]` × `[radius, height - radius]`.
#[derive(Clone, Copy, Debug, PartialEq, Eq, Structural)]
pub struct Arena {
    pub width: i64,
    pub height: i64,
}

impl Arena {
    /// Positive dimensions, small enough for overflow-free arithmetic.
    pub open spec fn wf(self) -> bool {
        0 < self.width <= COORD_LIMIT && 0 < self.height <= COORD_LIMIT
    }

    pub fn new(width: i64, height: i64) -> (a: Arena)
        requires
            0 < width <= COORD_LIMIT,
            0 < height <= COORD_LIMIT,
        ensures
            a == (Arena { width, height }),
            a.wf(),
    {
        Arena { width, height }
    }

    /// Centre of the playfield, where the player is spawned and the camera
    /// is aimed.
    pub fn center(&self) -> (c: Vec2)
        requires
            self.wf(),
        ensures
            c.x == self.width / 2,
            c.y == self.height / 2,
            0 <= c.x <= self.width,
            0 <= c.y <= self.height,
    {
        Vec2 { x: self.width / 2, y: self.height / 2 }
    }
}

} // verus!
