//! Per-frame input as plain values, and the player's velocity derived from
//! the held movement keys.
//!
//! The input collaborator supplies which of the four movement directions are
//! held and whether the pause toggle was just pressed. Opposite keys cancel;
//! a diagonal combination is scaled so that the player's speed stays the
//! same whatever the direction: the per-axis magnitude is multiplied by
//! 707/1000, an integer approximation of the reciprocal square root of two.

use vstd::prelude::*;
use crate::geometry::Vec2;
use crate::geometry::SPEED_LIMIT;

verus! {

/// Numerator of the diagonal scale, approximating 1/sqrt(2).
pub const DIAG_NUM: i64 = 707;

/// Denominator of the diagonal scale.
pub const DIAG_DEN: i64 = 1000;

/// The movement keys held this frame and the edge-triggered pause toggle.
#[derive(Clone, Copy, Debug, PartialEq, Eq, Structural)]
pub struct InputState {
    pub up: bool,
    pub down: bool,
    pub left: bool,
    pub right: bool,
    pub toggle_pause: bool,
}

impl InputState {
    /// No keys held and no toggle.
    pub fn idle() -> (r: InputState)
        ensures
            r == (InputState { up: false, down: false, left: false, right: false,
                toggle_pause: false }),
    {
        InputState { up: false, down: false, left: false, right: false, toggle_pause: false }
    }
}

/// One axis of the 8-direction input: opposite keys cancel out.
pub open spec fn spec_axis(negative: bool, positive: bool) -> int {
    if positive == negative {
        0
    } else if positive {
        1
    } else {
        -1
    }
}

/// Per-axis speed magnitude when moving diagonally.
pub open spec fn spec_diag_magnitude(speed: i64) -> int {
    (speed * DIAG_NUM) / (DIAG_DEN as int)
}

/// The player's velocity for the held keys: each active axis carries the
/// full speed, scaled by 707/1000 on both axes when the direction is
/// diagonal so that the combined speed stays close to `speed`.
pub open spec fn spec_velocity_from_input(input: InputState, speed: i64) -> Vec2 {
    let ax = spec_axis(input.left, input.right);
    let ay = spec_axis(input.down, input.up);
    let mag: int = if ax != 0 && ay != 0 { spec_diag_magnitude(speed) } else { speed as int };
    Vec2 { x: (ax * mag) as i64, y: (ay * mag) as i64 }
}

/// Turns the held movement keys into a velocity of constant magnitude.
pub fn velocity_from_input(input: InputState, speed: i64) -> (v: Vec2)
    requires
        0 <= speed <= SPEED_LIMIT,
    ensures
        v == spec_velocity_from_input(input, speed),
        v.bounded(SPEED_LIMIT as int),
        v.bounded(speed as int),
{
    let x_active = input.right != input.left;
    let y_active = input.up != input.down;
    let mag: i64 = if x_active && y_active {
        let scaled = speed * DIAG_NUM / DIAG_DEN;
        assert(0 <= speed * DIAG_NUM <= speed * DIAG_DEN) by (nonlinear_arith)
            requires 0 <= speed;
        assert(speed * DIAG_NUM / (DIAG_DEN as int) <= speed) by {
            vstd::arithmetic::div_mod::lemma_div_is_ordered(
                speed * DIAG_NUM, speed * DIAG_DEN, DIAG_DEN as int);
            vstd::arithmetic::div_mod::lemma_div_by_multiple(speed as int, DIAG_DEN as int);
        }
        scaled
    } else {
        speed
    };
    let x: i64 = if !x_active {
        0
    } else if input.right {
        mag
    } else {
        -mag
    };
    let y: i64 = if !y_active {
        0
    } else if input.up {
        mag
    } else {
        -mag
    };
    let v = Vec2 { x, y };
    proof {
        let target = spec_velocity_from_input(input, speed);
        assert(v.x == target.x && v.y == target.y);
        assert(v == target);
    }
    v
}

} // verus!
