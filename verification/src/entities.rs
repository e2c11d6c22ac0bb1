//! The entity records the registry owns: the player, the enemies, and the
//! collectable stars, with the fixed tuning constants of each.

use vstd::prelude::*;
use crate::geometry::Arena;
use crate::geometry::Vec2;
use crate::geometry::SPEED_LIMIT;
use crate::motion::radius_fits;
use crate::timer::Timer;

verus! {

/// The player's movement speed, in game units per second.
pub const PLAYER_SPEED: i64 = 500;

/// Half the player sprite's size.
pub const PLAYER_RADIUS: i64 = 64;

/// An enemy's movement speed, in game units per second.
pub const ENEMY_SPEED: i64 = 200;

/// Half an enemy sprite's size.
pub const ENEMY_RADIUS: i64 = 64;

/// Half a star sprite's size.
pub const STAR_RADIUS: i64 = 15;

/// Enemies created when a run starts.
pub const INITIAL_ENEMY_NUMBER: usize = 5;

/// Stars created when a run starts.
pub const INITIAL_STAR_NUMBER: usize = 10;

/// Period of the repeating enemy-spawn timer, in milliseconds.
pub const ENEMY_SPAWN_PERIOD_MS: u64 = 10_000;

/// Period of the repeating star-spawn timer, in milliseconds.
pub const STAR_SPAWN_PERIOD_MS: u64 = 1_000;

/// Length of the player's invincibility window after spawning.
pub const INVINCIBILITY_MS: u64 = 2_500;

/// The centre lies inside the arena rectangle.
pub open spec fn in_arena(pos: Vec2, arena: Arena) -> bool {
    0 <= pos.x <= arena.width && 0 <= pos.y <= arena.height
}

/// An enemy's difficulty tier. It selects the texture only; no behavioural
/// difference hangs on it.
#[derive(Clone, Copy, Debug, PartialEq, Eq, Structural, Default)]
pub enum EnemyDifficultyEnum {
    #[default]
    Easy,
    Medium,
    Hard,
}

/// A bouncing enemy ball.
#[derive(Clone, Copy, Debug, PartialEq, Eq, Structural)]
pub struct Enemy {
    pub pos: Vec2,
    pub vel: Vec2,
    pub radius: i64,
    pub difficulty: EnemyDifficultyEnum,
}

impl Enemy {
    /// Inside the arena, fitting radius, bounded velocity.
    pub open spec fn wf(self, arena: Arena) -> bool {
        &&& in_arena(self.pos, arena)
        &&& radius_fits(self.radius, arena)
        &&& self.vel.bounded(SPEED_LIMIT as int)
    }
}

/// The player-controlled ball. It starts invincible; the one-shot
/// invincibility timer runs while the game is active and clears the flag
/// when it finishes.
#[derive(Clone, Copy, Debug, PartialEq, Eq, Structural)]
pub struct Player {
    pub pos: Vec2,
    pub speed: i64,
    pub radius: i64,
    pub is_invincible: bool,
    pub invincibility: Timer,
}

impl Player {
    /// Inside the arena, fitting radius, bounded speed, and the invincibility
    /// flag mirrors the timer.
    pub open spec fn wf(self, arena: Arena) -> bool {
        &&& in_arena(self.pos, arena)
        &&& radius_fits(self.radius, arena)
        &&& 0 <= self.speed <= SPEED_LIMIT
        &&& self.invincibility.wf()
        &&& self.is_invincible == !self.invincibility.spec_finished()
    }

    /// A fresh player at the given position: default speed and size, with
    /// the invincibility window still to run.
    pub fn new(pos: Vec2) -> (p: Player)
        ensures
            p == (Player {
                pos,
                speed: PLAYER_SPEED,
                radius: PLAYER_RADIUS,
                is_invincible: true,
                invincibility: Timer {
                    elapsed_ms: 0,
                    duration_ms: INVINCIBILITY_MS,
                    repeating: false,
                },
            }),
            p.invincibility.wf(),
    {
        Player {
            pos,
            speed: PLAYER_SPEED,
            radius: PLAYER_RADIUS,
            is_invincible: true,
            invincibility: Timer {
                elapsed_ms: 0,
                duration_ms: INVINCIBILITY_MS,
                repeating: false,
            },
        }
    }
}

/// A collectable star. It never moves; it disappears when the player
/// touches it.
#[derive(Clone, Copy, Debug, PartialEq, Eq, Structural)]
pub struct Star {
    pub pos: Vec2,
    pub radius: i64,
}

impl Star {
    /// Inside the arena with a fitting radius.
    pub open spec fn wf(self, arena: Arena) -> bool {
        &&& in_arena(self.pos, arena)
        &&& radius_fits(self.radius, arena)
    }
}

} // verus!
