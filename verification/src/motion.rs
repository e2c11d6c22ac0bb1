//! Movement integration and boundary confinement.
//!
//! The integrator advances a position by velocity × elapsed time. Velocities
//! are in game units per second, frame deltas in milliseconds, and the
//! displacement per axis is the truncated quotient `|v| * dt / 1000` with the
//! velocity's sign. The confiner clamps a circular entity's centre to the
//! arena, and for enemies additionally reflects the velocity on contact with
//! a bound, reporting the bounce so the caller can emit a sound event.

use vstd::prelude::*;
use crate::geometry::Arena;
use crate::geometry::Vec2;
use crate::geometry::COORD_LIMIT;
use crate::geometry::SPEED_LIMIT;
use crate::input::spec_velocity_from_input;
use crate::input::velocity_from_input;
use crate::input::InputState;
use crate::timer::DT_LIMIT;

verus! {

/// Milliseconds per second; velocities are per-second, frame deltas per-millisecond.
pub const MS_PER_SEC: u64 = 1000;

/// Signed displacement of one axis over `dt` milliseconds: the magnitude is
/// scaled down by the millisecond unit, rounding toward zero.
pub open spec fn spec_scaled(v: int, dt: int) -> int {
    if v >= 0 {
        (v * dt) / (MS_PER_SEC as int)
    } else {
        -(((-v) * dt) / (MS_PER_SEC as int))
    }
}

/// The position after one integration step.
pub open spec fn spec_move(pos: Vec2, vel: Vec2, dt: u64) -> Vec2 {
    Vec2 {
        x: (pos.x + spec_scaled(vel.x as int, dt as int)) as i64,
        y: (pos.y + spec_scaled(vel.y as int, dt as int)) as i64,
    }
}

/// Displacement magnitude of one axis: `mag * dt / 1000`, with its bound.
fn scaled_magnitude(mag: u64, dt: u64) -> (d: u64)
    requires
        mag <= SPEED_LIMIT,
        dt <= DT_LIMIT,
    ensures
        d == (mag as int * dt as int) / (MS_PER_SEC as int),
        d <= COORD_LIMIT,
{
    proof {
        vstd::arithmetic::mul::lemma_mul_upper_bound(
            mag as int, SPEED_LIMIT as int, dt as int, DT_LIMIT as int);
        vstd::arithmetic::div_mod::lemma_div_is_ordered(
            mag as int * dt as int, SPEED_LIMIT * DT_LIMIT, MS_PER_SEC as int);
    }
    mag * dt / MS_PER_SEC
}

/// Displacement of one axis, computed on magnitudes so that the truncated
/// division matches `spec_scaled` for negative velocities too.
fn scaled_displacement(v: i64, dt: u64) -> (d: i64)
    requires
        -SPEED_LIMIT <= v <= SPEED_LIMIT,
        dt <= DT_LIMIT,
    ensures
        d == spec_scaled(v as int, dt as int),
        -COORD_LIMIT <= d <= COORD_LIMIT,
{
    if v >= 0 {
        let mag = scaled_magnitude(v as u64, dt);
        mag as i64
    } else {
        let neg: i64 = -v;
        let mag = scaled_magnitude(neg as u64, dt);
        -(mag as i64)
    }
}

/// Advances a position by `vel` over `dt` milliseconds.
pub fn move_position(pos: Vec2, vel: Vec2, dt: u64) -> (r: Vec2)
    requires
        pos.bounded(COORD_LIMIT as int),
        vel.bounded(SPEED_LIMIT as int),
        dt <= DT_LIMIT,
    ensures
        r == spec_move(pos, vel, dt),
        r.bounded(2 * COORD_LIMIT),
{
    let dx = scaled_displacement(vel.x, dt);
    let dy = scaled_displacement(vel.y, dt);
    Vec2 { x: pos.x + dx, y: pos.y + dy }
}

/// One movement-integrator pass for the player: the held keys give a
/// velocity of constant magnitude, which advances the position by `dt`
/// milliseconds. Confinement is a separate pass.
pub fn player_movement(pos: Vec2, input: InputState, speed: i64, dt: u64) -> (r: Vec2)
    requires
        pos.bounded(COORD_LIMIT as int),
        0 <= speed <= SPEED_LIMIT,
        dt <= DT_LIMIT,
    ensures
        r == spec_move(pos, spec_velocity_from_input(input, speed), dt),
        r.bounded(2 * COORD_LIMIT),
{
    move_position(pos, velocity_from_input(input, speed), dt)
}

/// One axis clamped to `[lo, hi]`.
pub open spec fn spec_clamp(v: int, lo: int, hi: int) -> int {
    if v < lo {
        lo
    } else if v > hi {
        hi
    } else {
        v
    }
}

/// A radius that leaves room for the entity inside the arena.
pub open spec fn radius_fits(radius: i64, arena: Arena) -> bool {
    0 < radius && 2 * radius <= arena.width && 2 * radius <= arena.height
}

/// The confined position: each axis clamped independently to
/// `[radius, dimension - radius]`.
pub open spec fn spec_confine_pos(pos: Vec2, radius: i64, arena: Arena) -> Vec2 {
    Vec2 {
        x: spec_clamp(pos.x as int, radius as int, arena.width - radius) as i64,
        y: spec_clamp(pos.y as int, radius as int, arena.height - radius) as i64,
    }
}

/// The boundary invariant: the circle of the given radius around `pos` lies
/// inside the arena.
pub open spec fn spec_in_bounds(pos: Vec2, radius: i64, arena: Arena) -> bool {
    radius <= pos.x <= arena.width - radius && radius <= pos.y <= arena.height - radius
}

/// Whether a pre-confinement position is at or beyond a horizontal bound,
/// which reflects an enemy's horizontal velocity.
pub open spec fn spec_bounce_x(pos: Vec2, radius: i64, arena: Arena) -> bool {
    pos.x <= radius || pos.x >= arena.width - radius
}

/// Whether a pre-confinement position is at or beyond a vertical bound.
pub open spec fn spec_bounce_y(pos: Vec2, radius: i64, arena: Arena) -> bool {
    pos.y <= radius || pos.y >= arena.height - radius
}

/// Clamps a circular entity's centre to the arena.
pub fn confine_position(pos: Vec2, radius: i64, arena: Arena) -> (r: Vec2)
    requires
        arena.wf(),
        radius_fits(radius, arena),
    ensures
        r == spec_confine_pos(pos, radius, arena),
        spec_in_bounds(r, radius, arena),
{
    let mut x = pos.x;
    let mut y = pos.y;
    if x < radius {
        x = radius;
    }
    if x > arena.width - radius {
        x = arena.width - radius;
    }
    if y < radius {
        y = radius;
    }
    if y > arena.height - radius {
        y = arena.height - radius;
    }
    Vec2 { x, y }
}

/// An enemy's position, velocity and bounce flag after one confinement pass.
#[derive(Clone, Copy, Debug, PartialEq, Eq, Structural)]
pub struct ConfineOutcome {
    pub pos: Vec2,
    pub vel: Vec2,
    pub bounced: bool,
}

/// The velocity after bound contact: each axis whose pre-confinement
/// position was at or beyond a bound has its sign flipped, exactly once.
pub open spec fn spec_bounce_vel(pos: Vec2, vel: Vec2, radius: i64, arena: Arena) -> Vec2 {
    Vec2 {
        x: if spec_bounce_x(pos, radius, arena) { (-vel.x) as i64 } else { vel.x },
        y: if spec_bounce_y(pos, radius, arena) { (-vel.y) as i64 } else { vel.y },
    }
}

/// Confines an enemy: clamps the position and reflects the velocity on each
/// axis whose pre-confinement position touched a bound. `bounced` reports
/// whether any axis flipped, so the caller can emit one bounce event.
pub fn confine_enemy(pos: Vec2, vel: Vec2, radius: i64, arena: Arena) -> (r: ConfineOutcome)
    requires
        arena.wf(),
        radius_fits(radius, arena),
        vel.bounded(SPEED_LIMIT as int),
    ensures
        r.pos == spec_confine_pos(pos, radius, arena),
        spec_in_bounds(r.pos, radius, arena),
        r.vel == spec_bounce_vel(pos, vel, radius, arena),
        r.vel.bounded(SPEED_LIMIT as int),
        r.bounced == (spec_bounce_x(pos, radius, arena) || spec_bounce_y(pos, radius, arena)),
{
    let mut vx = vel.x;
    let mut vy = vel.y;
    let mut bounced = false;
    if pos.x <= radius || pos.x >= arena.width - radius {
        vx = -vx;
        bounced = true;
    }
    if pos.y <= radius || pos.y >= arena.height - radius {
        vy = -vy;
        bounced = true;
    }
    let confined = confine_position(pos, radius, arena);
    ConfineOutcome { pos: confined, vel: Vec2 { x: vx, y: vy }, bounced }
}

/// The boundary invariant: whatever position a frame's movement produced,
/// one confinement pass puts the centre back into
/// `[radius, dimension - radius]` on both axes.
pub proof fn lemma_confine_in_bounds(pos: Vec2, radius: i64, arena: Arena)
    requires
        arena.wf(),
        radius_fits(radius, arena),
    ensures
        spec_in_bounds(spec_confine_pos(pos, radius, arena), radius, arena),
{
}

/// The confiner is a stable fixed point: a second pass over an already
/// confined position changes nothing, an already in-bounds position is left
/// as it is, and a position strictly inside the bounds triggers no bounce.
pub proof fn lemma_confine_idempotent(pos: Vec2, radius: i64, arena: Arena)
    requires
        arena.wf(),
        radius_fits(radius, arena),
    ensures
        spec_confine_pos(spec_confine_pos(pos, radius, arena), radius, arena)
            == spec_confine_pos(pos, radius, arena),
        spec_in_bounds(pos, radius, arena) ==> spec_confine_pos(pos, radius, arena) == pos,
        radius < pos.x < arena.width - radius && radius < pos.y < arena.height - radius
            ==> !spec_bounce_x(pos, radius, arena) && !spec_bounce_y(pos, radius, arena),
{
}

} // verus!
