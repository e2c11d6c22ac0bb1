//! The circle-circle overlap test behind the collision evaluator.
//!
//! Two circular entities overlap when the Euclidean distance between their
//! centres is strictly less than the sum of their radii. The test is carried
//! out on squares, which needs no square root and stays exact in integers.

use vstd::prelude::*;
use crate::geometry::Vec2;
use crate::geometry::COORD_LIMIT;

verus! {

/// Whether two circles overlap: centre distance strictly below the radius
/// sum, compared on squares.
pub open spec fn spec_overlap(a_pos: Vec2, a_radius: i64, b_pos: Vec2, b_radius: i64) -> bool {
    let dx = a_pos.x - b_pos.x;
    let dy = a_pos.y - b_pos.y;
    let rs = a_radius + b_radius;
    dx * dx + dy * dy < rs * rs
}

/// Circle-circle overlap test between two entity outlines.
pub fn overlaps(a_pos: Vec2, a_radius: i64, b_pos: Vec2, b_radius: i64) -> (r: bool)
    requires
        a_pos.bounded(COORD_LIMIT as int),
        b_pos.bounded(COORD_LIMIT as int),
        0 < a_radius <= COORD_LIMIT,
        0 < b_radius <= COORD_LIMIT,
    ensures
        r == spec_overlap(a_pos, a_radius, b_pos, b_radius),
{
    let dx: i64 = a_pos.x - b_pos.x;
    let dy: i64 = a_pos.y - b_pos.y;
    let rs: i64 = a_radius + b_radius;
    assert(dx * dx <= 4 * COORD_LIMIT * COORD_LIMIT && dx * dx >= 0) by (nonlinear_arith)
        requires -2 * COORD_LIMIT <= dx <= 2 * COORD_LIMIT;
    assert(dy * dy <= 4 * COORD_LIMIT * COORD_LIMIT && dy * dy >= 0) by (nonlinear_arith)
        requires -2 * COORD_LIMIT <= dy <= 2 * COORD_LIMIT;
    assert(rs * rs <= 4 * COORD_LIMIT * COORD_LIMIT && rs * rs >= 0) by (nonlinear_arith)
        requires 0 < rs <= 2 * COORD_LIMIT;
    dx * dx + dy * dy < rs * rs
}

/// Collision symmetry: the overlap test does not depend on the order of the
/// two entities.
pub proof fn lemma_overlap_symmetric(a_pos: Vec2, a_radius: i64, b_pos: Vec2, b_radius: i64)
    ensures
        spec_overlap(a_pos, a_radius, b_pos, b_radius)
            == spec_overlap(b_pos, b_radius, a_pos, a_radius),
{
    let dx = a_pos.x - b_pos.x;
    let dy = a_pos.y - b_pos.y;
    assert(dx * dx == (-dx) * (-dx) && dy * dy == (-dy) * (-dy)) by (nonlinear_arith);
}

} // verus!
