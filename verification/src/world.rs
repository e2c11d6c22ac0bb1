//! The entity registry and the per-frame update pipeline.
//!
//! A [`World`] owns every entity record together with the arena, the score,
//! the game state and the spawn timers. Each frame the surrounding program
//! hands it the held keys and the elapsed milliseconds; [`World::step`] runs
//! the phases in order — state machine, spawners, movement, confinement,
//! collision — and returns the events the frame produced.

use vstd::prelude::*;
use crate::collision::overlaps;
use crate::collision::spec_overlap;
use crate::entities::Enemy;
use crate::entities::EnemyDifficultyEnum;
use crate::entities::Player;
use crate::entities::Star;
use crate::entities::ENEMY_RADIUS;
use crate::entities::ENEMY_SPAWN_PERIOD_MS;
use crate::entities::ENEMY_SPEED;
use crate::entities::PLAYER_RADIUS;
use crate::entities::STAR_RADIUS;
use crate::entities::STAR_SPAWN_PERIOD_MS;
use crate::errors::SimError;
use crate::events::GameEvent;
use crate::geometry::Arena;
use crate::geometry::Vec2;
use crate::geometry::COORD_LIMIT;
use crate::input::spec_velocity_from_input;
use crate::input::InputState;
use crate::motion::confine_enemy;
use crate::motion::confine_position;
use crate::motion::move_position;
use crate::motion::player_movement;
use crate::motion::radius_fits;
use crate::motion::spec_bounce_vel;
use crate::motion::spec_bounce_x;
use crate::motion::spec_bounce_y;
use crate::motion::spec_confine_pos;
use crate::motion::spec_in_bounds;
use crate::motion::spec_move;
use crate::rng::random_in_range;
use crate::states::toggle_app_state;
use crate::states::spec_state_after_input;
use crate::states::AppState;
use crate::timer::spec_timer_advance;
use crate::timer::spec_timer_fires;
use crate::timer::Timer;
use crate::timer::DT_LIMIT;

verus! {

/// The mathematical model of a [`World`]: the same fields with the entity
/// vectors as sequences.
#[verifier::ext_equal]
pub struct WorldModel {
    pub arena: Arena,
    pub state: AppState,
    pub score: int,
    pub player: Option<Player>,
    pub enemies: Seq<Enemy>,
    pub stars: Seq<Star>,
    pub enemy_timer: Timer,
    pub star_timer: Timer,
}

/// The simulation: arena, game state, score, the entity registry, and the
/// two repeating spawn timers.
pub struct World {
    pub arena: Arena,
    pub state: AppState,
    pub score: u64,
    pub player: Option<Player>,
    pub enemies: Vec<Enemy>,
    pub stars: Vec<Star>,
    pub enemy_timer: Timer,
    pub star_timer: Timer,
}

impl View for World {
    type V = WorldModel;

    open spec fn view(&self) -> WorldModel {
        WorldModel {
            arena: self.arena,
            state: self.state,
            score: self.score as int,
            player: self.player,
            enemies: self.enemies@,
            stars: self.stars@,
            enemy_timer: self.enemy_timer,
            star_timer: self.star_timer,
        }
    }
}

/// Every entity variant's radius leaves room inside the arena.
pub open spec fn arena_fits_entities(arena: Arena) -> bool {
    &&& radius_fits(PLAYER_RADIUS, arena)
    &&& radius_fits(ENEMY_RADIUS, arena)
    &&& radius_fits(STAR_RADIUS, arena)
}

/// What is known of a freshly spawned enemy: placed uniformly at random in
/// `[0, width) × [0, height)` — without regard to its radius, so it may
/// start partly outside the bounds until the next confinement pass — with a
/// random non-negative velocity no faster than `ENEMY_SPEED` per axis.
pub open spec fn spawned_enemy_ok(e: Enemy, arena: Arena) -> bool {
    &&& 0 <= e.pos.x < arena.width
    &&& 0 <= e.pos.y < arena.height
    &&& 0 <= e.vel.x <= ENEMY_SPEED
    &&& 0 <= e.vel.y <= ENEMY_SPEED
    &&& e.radius == ENEMY_RADIUS
    &&& e.difficulty == EnemyDifficultyEnum::Easy
}

/// What is known of a freshly spawned star: placed uniformly at random in
/// `[0, width) × [0, height)`.
pub open spec fn spawned_star_ok(s: Star, arena: Arena) -> bool {
    &&& 0 <= s.pos.x < arena.width
    &&& 0 <= s.pos.y < arena.height
    &&& s.radius == STAR_RADIUS
}

/// Reads the window collaborator's report into an arena. A missing report,
/// or bounds the entities cannot fit in, is a startup precondition failure.
pub fn arena_from_window(dims: Option<(i64, i64)>) -> (r: Result<Arena, SimError>)
    ensures
        r is Ok <==> (dims matches Some((w, h))
            && 0 < w <= COORD_LIMIT && 0 < h <= COORD_LIMIT
            && arena_fits_entities(Arena { width: w, height: h })),
        r matches Ok(a) ==> dims matches Some((w, h))
            && a == (Arena { width: w, height: h }) && a.wf() && arena_fits_entities(a),
        r is Err ==> r->Err_0 == SimError::MissingArena,
{
    match dims {
        None => Err(SimError::MissingArena),
        Some((w, h)) => {
            if 0 < w && w <= COORD_LIMIT && 0 < h && h <= COORD_LIMIT
                && 2 * PLAYER_RADIUS <= w && 2 * PLAYER_RADIUS <= h
                && 2 * ENEMY_RADIUS <= w && 2 * ENEMY_RADIUS <= h
                && 2 * STAR_RADIUS <= w && 2 * STAR_RADIUS <= h
            {
                Ok(Arena { width: w, height: h })
            } else {
                Err(SimError::MissingArena)
            }
        }
    }
}

/// The player after one frame while the game is active: the invincibility
/// timer advances and may clear the flag, and the position moves by the held
/// keys' velocity and is then confined to the arena.
pub open spec fn spec_advance_player(p: Player, input: InputState, dt: u64, arena: Arena) -> Player {
    let vel = spec_velocity_from_input(input, p.speed);
    let moved = spec_move(p.pos, vel, dt);
    let t = spec_timer_advance(p.invincibility, dt);
    Player {
        pos: spec_confine_pos(moved, p.radius, arena),
        is_invincible: !t.spec_finished(),
        invincibility: t,
        ..p
    }
}

/// An enemy after one frame: moved by its velocity, then confined, with the
/// velocity reflected on each axis whose post-movement position touched a
/// bound.
pub open spec fn spec_advance_enemy(e: Enemy, dt: u64, arena: Arena) -> Enemy {
    let moved = spec_move(e.pos, e.vel, dt);
    Enemy {
        pos: spec_confine_pos(moved, e.radius, arena),
        vel: spec_bounce_vel(moved, e.vel, e.radius, arena),
        ..e
    }
}

/// Whether an enemy's post-movement, pre-confinement position touches a
/// bound this frame, which emits one bounce event.
pub open spec fn spec_enemy_bounced(e: Enemy, dt: u64, arena: Arena) -> bool {
    let moved = spec_move(e.pos, e.vel, dt);
    spec_bounce_x(moved, e.radius, arena) || spec_bounce_y(moved, e.radius, arena)
}

/// One `EnemyBounced` event per bouncing enemy, in registry order.
pub open spec fn spec_bounce_events(enemies: Seq<Enemy>, dt: u64, arena: Arena) -> Seq<GameEvent>
    decreases enemies.len(),
{
    if enemies.len() == 0 {
        Seq::empty()
    } else {
        let rest = spec_bounce_events(enemies.drop_last(), dt, arena);
        if spec_enemy_bounced(enemies.last(), dt, arena) {
            rest.push(GameEvent::EnemyBounced)
        } else {
            rest
        }
    }
}

/// Whether the player's circle overlaps this star's.
pub open spec fn spec_star_collected(p: Player, s: Star) -> bool {
    spec_overlap(p.pos, p.radius, s.pos, s.radius)
}

/// The stars that remain after the player collects every star it overlaps:
/// the original order with the collected ones removed.
pub open spec fn spec_surviving_stars(p: Player, stars: Seq<Star>) -> Seq<Star>
    decreases stars.len(),
{
    if stars.len() == 0 {
        Seq::empty()
    } else {
        let rest = spec_surviving_stars(p, stars.drop_last());
        if spec_star_collected(p, stars.last()) {
            rest
        } else {
            rest.push(stars.last())
        }
    }
}

/// How many stars the player collects: exactly one count per overlapped star
/// instance.
pub open spec fn spec_collected_count(p: Player, stars: Seq<Star>) -> nat
    decreases stars.len(),
{
    if stars.len() == 0 {
        0
    } else {
        spec_collected_count(p, stars.drop_last())
            + if spec_star_collected(p, stars.last()) { 1nat } else { 0nat }
    }
}

/// Each star is either collected or kept, never both and never twice: the
/// collected count and the surviving stars together account for every star
/// instance exactly once.
pub proof fn lemma_star_tally(p: Player, stars: Seq<Star>)
    ensures
        spec_collected_count(p, stars) + spec_surviving_stars(p, stars).len() == stars.len(),
        spec_collected_count(p, stars) <= stars.len(),
    decreases stars.len(),
{
    if stars.len() > 0 {
        lemma_star_tally(p, stars.drop_last());
    }
}

/// Whether a non-invincible player overlaps some enemy: the fatal collision
/// that ends the run.
pub open spec fn spec_fatal(p: Player, enemies: Seq<Enemy>) -> bool {
    &&& !p.is_invincible
    &&& exists|i: int| 0 <= i < enemies.len()
        && spec_overlap(p.pos, p.radius, (#[trigger] enemies[i]).pos, enemies[i].radius)
}

/// Advances the player by one active frame.
pub fn advance_player(p: Player, input: InputState, dt: u64, arena: Arena) -> (r: Player)
    requires
        arena.wf(),
        p.wf(arena),
        dt <= DT_LIMIT,
    ensures
        r == spec_advance_player(p, input, dt, arena),
        r.wf(arena),
        spec_in_bounds(r.pos, r.radius, arena),
{
    let moved = player_movement(p.pos, input, p.speed, dt);
    let pos = confine_position(moved, p.radius, arena);
    let mut t = p.invincibility;
    let _fired = t.advance(dt);
    let is_invincible = !t.finished();
    Player { pos, is_invincible, invincibility: t, ..p }
}

/// Advances one enemy by one active frame and reports whether it bounced.
pub fn advance_enemy(e: Enemy, dt: u64, arena: Arena) -> (r: (Enemy, bool))
    requires
        arena.wf(),
        e.wf(arena),
        dt <= DT_LIMIT,
    ensures
        r.0 == spec_advance_enemy(e, dt, arena),
        r.1 == spec_enemy_bounced(e, dt, arena),
        r.0.wf(arena),
        spec_in_bounds(r.0.pos, r.0.radius, arena),
{
    let moved = move_position(e.pos, e.vel, dt);
    let outcome = confine_enemy(moved, e.vel, e.radius, arena);
    (Enemy { pos: outcome.pos, vel: outcome.vel, ..e }, outcome.bounced)
}

/// Advances every enemy in registry order and returns one bounce event per
/// enemy that touched a bound.
fn advance_enemies(enemies: &mut Vec<Enemy>, dt: u64, arena: Arena) -> (events: Vec<GameEvent>)
    requires
        arena.wf(),
        forall|i: int| 0 <= i < old(enemies)@.len()
            ==> (#[trigger] old(enemies)@[i]).wf(arena),
        dt <= DT_LIMIT,
    ensures
        final(enemies)@ == old(enemies)@.map_values(
            |e: Enemy| spec_advance_enemy(e, dt, arena)),
        forall|i: int| 0 <= i < final(enemies)@.len()
            ==> (#[trigger] final(enemies)@[i]).wf(arena),
        events@ == spec_bounce_events(old(enemies)@, dt, arena),
{
    let n = enemies.len();
    let mut events: Vec<GameEvent> = Vec::new();
    let mut i: usize = 0;
    while i < n
        invariant
            arena.wf(),
            dt <= DT_LIMIT,
            i <= n,
            n == enemies@.len(),
            n == old(enemies)@.len(),
            forall|j: int| 0 <= j < i ==> (#[trigger] enemies@[j])
                == spec_advance_enemy(old(enemies)@[j], dt, arena),
            forall|j: int| 0 <= j < i ==> (#[trigger] enemies@[j]).wf(arena),
            forall|j: int| i <= j < n ==> (#[trigger] enemies@[j]) == old(enemies)@[j],
            forall|j: int| 0 <= j < old(enemies)@.len()
                ==> (#[trigger] old(enemies)@[j]).wf(arena),
            events@ == spec_bounce_events(old(enemies)@.take(i as int), dt, arena),
        decreases n - i,
    {
        let e = enemies[i];
        proof {
            assert(e.wf(arena));
        }
        let (advanced, bounced) = advance_enemy(e, dt, arena);
        enemies.set(i, advanced);
        if bounced {
            events.push(GameEvent::EnemyBounced);
        }
        proof {
            let pre = old(enemies)@;
            assert(pre.take(i as int + 1).drop_last() =~= pre.take(i as int));
            assert(pre.take(i as int + 1).last() == pre[i as int]);
        }
        i = i + 1;
    }
    proof {
        assert(old(enemies)@.take(n as int) =~= old(enemies)@);
        assert(enemies@ =~= old(enemies)@.map_values(
            |e: Enemy| spec_advance_enemy(e, dt, arena)));
    }
    events
}

/// Tests the player against every enemy. The scan stops at the first
/// overlap; an invincible player cannot collide fatally.
fn fatal_collision(p: &Player, enemies: &Vec<Enemy>, arena: Arena) -> (r: bool)
    requires
        arena.wf(),
        p.wf(arena),
        forall|i: int| 0 <= i < enemies@.len() ==> (#[trigger] enemies@[i]).wf(arena),
    ensures
        r == spec_fatal(*p, enemies@),
{
    if p.is_invincible {
        return false;
    }
    let n = enemies.len();
    let mut i: usize = 0;
    while i < n
        invariant
            arena.wf(),
            p.wf(arena),
            !p.is_invincible,
            i <= n,
            n == enemies@.len(),
            forall|j: int| 0 <= j < enemies@.len() ==> (#[trigger] enemies@[j]).wf(arena),
            forall|j: int| 0 <= j < i ==> !spec_overlap(
                p.pos, p.radius, (#[trigger] enemies@[j]).pos, enemies@[j].radius),
        decreases n - i,
    {
        let e = &enemies[i];
        if overlaps(p.pos, p.radius, e.pos, e.radius) {
            return true;
        }
        i = i + 1;
    }
    false
}

/// Removes every star the player overlaps, keeping the others in order, and
/// counts the removed ones. Each star instance is collected at most once,
/// because collection removes it from the registry.
fn collect_stars(p: &Player, stars: &mut Vec<Star>, arena: Arena) -> (collected: u64)
    requires
        arena.wf(),
        p.wf(arena),
        forall|i: int| 0 <= i < old(stars)@.len() ==> (#[trigger] old(stars)@[i]).wf(arena),
        old(stars)@.len() < u64::MAX,
    ensures
        final(stars)@ == spec_surviving_stars(*p, old(stars)@),
        collected == spec_collected_count(*p, old(stars)@),
        collected + final(stars)@.len() == old(stars)@.len(),
        forall|i: int| 0 <= i < final(stars)@.len() ==> (#[trigger] final(stars)@[i]).wf(arena),
{
    let n = stars.len();
    let mut kept: Vec<Star> = Vec::new();
    let mut collected: u64 = 0;
    let mut i: usize = 0;
    while i < n
        invariant
            arena.wf(),
            p.wf(arena),
            i <= n,
            n == stars@.len(),
            n < u64::MAX,
            stars@ == old(stars)@,
            forall|j: int| 0 <= j < stars@.len() ==> (#[trigger] stars@[j]).wf(arena),
            kept@ == spec_surviving_stars(*p, stars@.take(i as int)),
            collected == spec_collected_count(*p, stars@.take(i as int)),
            forall|j: int| 0 <= j < kept@.len() ==> (#[trigger] kept@[j]).wf(arena),
        decreases n - i,
    {
        proof {
            lemma_star_tally(*p, stars@.take(i as int));
            assert(stars@.take(i as int + 1).drop_last() =~= stars@.take(i as int));
            assert(stars@.take(i as int + 1).last() == stars@[i as int]);
        }
        let s = stars[i];
        if overlaps(p.pos, p.radius, s.pos, s.radius) {
            collected = collected + 1;
        } else {
            kept.push(s);
        }
        i = i + 1;
    }
    proof {
        assert(stars@.take(n as int) =~= stars@);
        lemma_star_tally(*p, stars@);
    }
    *stars = kept;
    collected
}

/// The spawners' contribution to a frame, applied at the head of the active
/// pipeline: both spawn timers advanced, and the freshly spawned entities —
/// one per timer that fired — appended to the registry.
pub open spec fn spec_spawned(m: WorldModel, dt: u64, we: Seq<Enemy>, ws: Seq<Star>) -> WorldModel {
    WorldModel {
        enemy_timer: spec_timer_advance(m.enemy_timer, dt),
        star_timer: spec_timer_advance(m.star_timer, dt),
        enemies: m.enemies + we,
        stars: m.stars + ws,
        ..m
    }
}

/// One active frame on a model whose spawners have already run: every enemy
/// moves and is confined, the player moves and is confined, and the player is
/// then tested against the post-confinement enemies and stars. A fatal
/// overlap removes the player, ends the run and stops further evaluation;
/// otherwise every overlapped star is collected. Events come in phase order:
/// the bounces first, then the collision outcome.
pub open spec fn spec_step_game(m: WorldModel, input: InputState, dt: u64)
    -> (WorldModel, Seq<GameEvent>)
{
    let enemies1 = m.enemies.map_values(|e: Enemy| spec_advance_enemy(e, dt, m.arena));
    let bounce = spec_bounce_events(m.enemies, dt, m.arena);
    match m.player {
        None => (WorldModel { enemies: enemies1, ..m }, bounce),
        Some(p) => {
            let p1 = spec_advance_player(p, input, dt, m.arena);
            if spec_fatal(p1, enemies1) {
                (
                    WorldModel {
                        player: None,
                        state: AppState::GameOver,
                        enemies: enemies1,
                        ..m
                    },
                    bounce.push(GameEvent::PlayerExploded),
                )
            } else {
                (
                    WorldModel {
                        player: Some(p1),
                        enemies: enemies1,
                        stars: spec_surviving_stars(p1, m.stars),
                        score: m.score + spec_collected_count(p1, m.stars),
                        ..m
                    },
                    bounce + Seq::new(
                        spec_collected_count(p1, m.stars),
                        |i: int| GameEvent::StarCollected,
                    ),
                )
            }
        }
    }
}

/// Score monotonicity: no frame lowers the score, and a frame the player
/// survives raises it by exactly one per star collected that frame — each a
/// distinct star instance, since collection removes the star from the
/// registry.
pub proof fn lemma_score_monotone(m: WorldModel, input: InputState, dt: u64)
    ensures
        spec_step_game(m, input, dt).0.score >= m.score,
        (m.player matches Some(p) && !spec_fatal(
            spec_advance_player(p, input, dt, m.arena),
            m.enemies.map_values(|e: Enemy| spec_advance_enemy(e, dt, m.arena))))
            ==> spec_step_game(m, input, dt).0.score
                == m.score + spec_collected_count(
                    spec_advance_player(m.player->Some_0, input, dt, m.arena), m.stars),
{
}

impl World {
    /// The registry's invariant: a well-formed arena that every entity
    /// variant fits in, well-formed entities inside it, and well-formed
    /// timers.
    pub open spec fn wf(self) -> bool {
        &&& self.arena.wf()
        &&& arena_fits_entities(self.arena)
        &&& (self.player matches Some(p) ==> p.wf(self.arena))
        &&& (forall|i: int| 0 <= i < self.enemies@.len() ==> (#[trigger] self.enemies@[i]).wf(self.arena))
        &&& (forall|i: int| 0 <= i < self.stars@.len() ==> (#[trigger] self.stars@[i]).wf(self.arena))
        &&& self.enemy_timer.wf()
        &&& self.star_timer.wf()
    }

    /// A fresh run: active game, zero score, no entities yet, and the two
    /// repeating spawn timers at the start of their periods.
    pub fn new(arena: Arena) -> (w: World)
        requires
            arena.wf(),
            arena_fits_entities(arena),
        ensures
            w.wf(),
            w@ == (WorldModel {
                arena,
                state: AppState::Game,
                score: 0,
                player: None::<Player>,
                enemies: Seq::<Enemy>::empty(),
                stars: Seq::<Star>::empty(),
                enemy_timer: Timer {
                    elapsed_ms: 0,
                    duration_ms: ENEMY_SPAWN_PERIOD_MS,
                    repeating: true,
                },
                star_timer: Timer {
                    elapsed_ms: 0,
                    duration_ms: STAR_SPAWN_PERIOD_MS,
                    repeating: true,
                },
            }),
    {
        let w = World {
            arena,
            state: AppState::Game,
            score: 0,
            player: None,
            enemies: Vec::new(),
            stars: Vec::new(),
            enemy_timer: Timer {
                elapsed_ms: 0,
                duration_ms: ENEMY_SPAWN_PERIOD_MS,
                repeating: true,
            },
            star_timer: Timer {
                elapsed_ms: 0,
                duration_ms: STAR_SPAWN_PERIOD_MS,
                repeating: true,
            },
        };
        proof {
            assert(w@ =~= (WorldModel {
                arena,
                state: AppState::Game,
                score: 0,
                player: None::<Player>,
                enemies: Seq::<Enemy>::empty(),
                stars: Seq::<Star>::empty(),
                enemy_timer: Timer {
                    elapsed_ms: 0,
                    duration_ms: ENEMY_SPAWN_PERIOD_MS,
                    repeating: true,
                },
                star_timer: Timer {
                    elapsed_ms: 0,
                    duration_ms: STAR_SPAWN_PERIOD_MS,
                    repeating: true,
                },
            }));
        }
        w
    }

    /// Places the player at the arena's centre, as the run's start does.
    /// A world that already has a player is left untouched.
    pub fn spawn_player(&mut self)
        requires
            old(self).wf(),
        ensures
            final(self).wf(),
            old(self).player is Some ==> *final(self) == *old(self),
            old(self).player is None ==> final(self)@ == (WorldModel {
                player: Some(Player {
                    pos: Vec2 {
                        x: (old(self).arena.width / 2) as i64,
                        y: (old(self).arena.height / 2) as i64,
                    },
                    speed: crate::entities::PLAYER_SPEED,
                    radius: PLAYER_RADIUS,
                    is_invincible: true,
                    invincibility: Timer {
                        elapsed_ms: 0,
                        duration_ms: crate::entities::INVINCIBILITY_MS,
                        repeating: false,
                    },
                }),
                ..old(self)@
            }),
    {
        if self.player.is_none() {
            let center = self.arena.center();
            self.player = Some(Player::new(center));
            proof {
                assert(self@ =~= (WorldModel { player: self@.player, ..old(self)@ }));
            }
        }
    }

    /// Creates one enemy at a uniformly random position, with a random
    /// non-negative velocity bounded by `ENEMY_SPEED` per axis.
    pub fn spawn_enemy(&mut self)
        requires
            old(self).wf(),
        ensures
            final(self).wf(),
            final(self).enemies@.len() == old(self).enemies@.len() + 1,
            spawned_enemy_ok(final(self).enemies@.last(), old(self).arena),
            final(self)@ == (WorldModel {
                enemies: old(self).enemies@.push(final(self).enemies@.last()),
                ..old(self)@
            }),
    {
        let x = random_in_range(0, self.arena.width as u64) as i64;
        let y = random_in_range(0, self.arena.height as u64) as i64;
        let vx = random_in_range(0, (ENEMY_SPEED + 1) as u64) as i64;
        let vy = random_in_range(0, (ENEMY_SPEED + 1) as u64) as i64;
        let enemy = Enemy {
            pos: Vec2 { x, y },
            vel: Vec2 { x: vx, y: vy },
            radius: ENEMY_RADIUS,
            difficulty: EnemyDifficultyEnum::Easy,
        };
        self.enemies.push(enemy);
        proof {
            assert(self@ =~= (WorldModel { enemies: self@.enemies, ..old(self)@ }));
        }
    }

    /// Creates one star at a uniformly random position.
    pub fn spawn_star(&mut self)
        requires
            old(self).wf(),
        ensures
            final(self).wf(),
            final(self).stars@.len() == old(self).stars@.len() + 1,
            spawned_star_ok(final(self).stars@.last(), old(self).arena),
            final(self)@ == (WorldModel {
                stars: old(self).stars@.push(final(self).stars@.last()),
                ..old(self)@
            }),
    {
        let x = random_in_range(0, self.arena.width as u64) as i64;
        let y = random_in_range(0, self.arena.height as u64) as i64;
        let star = Star { pos: Vec2 { x, y }, radius: STAR_RADIUS };
        self.stars.push(star);
        proof {
            assert(self@ =~= (WorldModel { stars: self@.stars, ..old(self)@ }));
        }
    }

    /// Creates the startup batch of `count` enemies at random positions.
    pub fn spawn_enemies(&mut self, count: usize)
        requires
            old(self).wf(),
            old(self).enemies@.len() + count <= usize::MAX,
        ensures
            final(self).wf(),
            final(self).enemies@.len() == old(self).enemies@.len() + count,
            final(self).enemies@.take(old(self).enemies@.len() as int) == old(self).enemies@,
            forall|i: int| old(self).enemies@.len() <= i < final(self).enemies@.len()
                ==> spawned_enemy_ok(#[trigger] final(self).enemies@[i], old(self).arena),
            final(self)@ == (WorldModel { enemies: final(self).enemies@, ..old(self)@ }),
    {
        let mut spawned: usize = 0;
        while spawned < count
            invariant
                self.wf(),
                spawned <= count,
                self.enemies@.len() == old(self).enemies@.len() + spawned,
                self.enemies@.take(old(self).enemies@.len() as int) == old(self).enemies@,
                forall|i: int| old(self).enemies@.len() <= i < self.enemies@.len()
                    ==> spawned_enemy_ok(#[trigger] self.enemies@[i], old(self).arena),
                self@ == (WorldModel { enemies: self.enemies@, ..old(self)@ }),
            decreases count - spawned,
        {
            let ghost before = self.enemies@;
            self.spawn_enemy();
            spawned = spawned + 1;
            proof {
                assert(self.enemies@.take(old(self).enemies@.len() as int)
                    =~= before.take(old(self).enemies@.len() as int));
                assert(self@ =~= (WorldModel { enemies: self.enemies@, ..old(self)@ }));
            }
        }
        proof {
            assert(self@ =~= (WorldModel { enemies: self.enemies@, ..old(self)@ }));
        }
    }

    /// Creates the startup batch of `count` stars at random positions.
    pub fn spawn_stars(&mut self, count: usize)
        requires
            old(self).wf(),
            old(self).stars@.len() + count <= usize::MAX,
        ensures
            final(self).wf(),
            final(self).stars@.len() == old(self).stars@.len() + count,
            final(self).stars@.take(old(self).stars@.len() as int) == old(self).stars@,
            forall|i: int| old(self).stars@.len() <= i < final(self).stars@.len()
                ==> spawned_star_ok(#[trigger] final(self).stars@[i], old(self).arena),
            final(self)@ == (WorldModel { stars: final(self).stars@, ..old(self)@ }),
    {
        let mut spawned: usize = 0;
        while spawned < count
            invariant
                self.wf(),
                spawned <= count,
                self.stars@.len() == old(self).stars@.len() + spawned,
                self.stars@.take(old(self).stars@.len() as int) == old(self).stars@,
                forall|i: int| old(self).stars@.len() <= i < self.stars@.len()
                    ==> spawned_star_ok(#[trigger] self.stars@[i], old(self).arena),
                self@ == (WorldModel { stars: self.stars@, ..old(self)@ }),
            decreases count - spawned,
        {
            let ghost before = self.stars@;
            self.spawn_star();
            spawned = spawned + 1;
            proof {
                assert(self.stars@.take(old(self).stars@.len() as int)
                    =~= before.take(old(self).stars@.len() as int));
                assert(self@ =~= (WorldModel { stars: self.stars@, ..old(self)@ }));
            }
        }
        proof {
            assert(self@ =~= (WorldModel { stars: self.stars@, ..old(self)@ }));
        }
    }

    /// Advances the simulation by one frame.
    ///
    /// The state machine runs first; when the resulting state is not Game,
    /// nothing else advances and no event is produced. Otherwise the phases
    /// run in order — spawners, movement, confinement, collision — and the
    /// frame's outcome equals [`spec_step_game`] applied to the world with
    /// that frame's spawns appended, for some spawned entities within the
    /// stated random ranges. The score never decreases, and grows by exactly
    /// one per collected star instance.
    pub fn step(&mut self, input: InputState, dt: u64) -> (events: Vec<GameEvent>)
        requires
            old(self).wf(),
            dt <= DT_LIMIT,
            old(self).score + old(self).stars@.len() + 1 < u64::MAX,
        ensures
            final(self).wf(),
            final(self).score >= old(self).score,
            final(self).arena == old(self).arena,
            ({
                let s1 = spec_state_after_input(old(self)@.state, input.toggle_pause);
                if s1 != AppState::Game {
                    &&& final(self)@ == (WorldModel { state: s1, ..old(self)@ })
                    &&& events@ == Seq::<GameEvent>::empty()
                } else {
                    exists|we: Seq<Enemy>, ws: Seq<Star>|
                        #![auto]
                        {
                            &&& we.len() == (
                                if spec_timer_fires(old(self).enemy_timer, dt) { 1int } else { 0int })
                            &&& ws.len() == (
                                if spec_timer_fires(old(self).star_timer, dt) { 1int } else { 0int })
                            &&& (forall|i: int| 0 <= i < we.len()
                                ==> spawned_enemy_ok(#[trigger] we[i], old(self).arena))
                            &&& (forall|i: int| 0 <= i < ws.len()
                                ==> spawned_star_ok(#[trigger] ws[i], old(self).arena))
                            &&& (final(self)@, events@) == spec_step_game(
                                spec_spawned(
                                    WorldModel { state: s1, ..old(self)@ }, dt, we, ws),
                                input, dt)
                        }
                }
            }),
    {
        let next_state = toggle_app_state(self.state, input.toggle_pause);
        self.state = next_state;
        if next_state != AppState::Game {
            proof {
                assert(self@ =~= (WorldModel {
                    state: spec_state_after_input(old(self)@.state, input.toggle_pause),
                    ..old(self)@
                }));
            }
            return Vec::new();
        }

        let enemy_fired = self.enemy_timer.advance(dt);
        let star_fired = self.star_timer.advance(dt);
        if enemy_fired {
            self.spawn_enemy();
        }
        let ghost we = if enemy_fired { seq![self.enemies@.last()] } else { Seq::<Enemy>::empty() };
        if star_fired {
            self.spawn_star();
        }
        let ghost ws = if star_fired { seq![self.stars@.last()] } else { Seq::<Star>::empty() };
        let ghost m1 = spec_spawned(
            WorldModel { state: AppState::Game, ..old(self)@ }, dt, we, ws);
        proof {
            assert(self@.enemies =~= m1.enemies);
            assert(self@.stars =~= m1.stars);
            assert(self@ =~= m1);
        }

        let mut events = advance_enemies(&mut self.enemies, dt, self.arena);
        let ghost enemies1 = m1.enemies.map_values(
            |e: Enemy| spec_advance_enemy(e, dt, m1.arena));
        let ghost bounce = spec_bounce_events(m1.enemies, dt, m1.arena);

        let player_before = self.player;
        match player_before {
            None => {
                proof {
                    assert(self@ =~= spec_step_game(m1, input, dt).0);
                    assert(events@ =~= spec_step_game(m1, input, dt).1);
                }
            }
            Some(p) => {
                let p1 = advance_player(p, input, dt, self.arena);
                if fatal_collision(&p1, &self.enemies, self.arena) {
                    self.player = None;
                    self.state = AppState::GameOver;
                    events.push(GameEvent::PlayerExploded);
                    proof {
                        assert(self@ =~= spec_step_game(m1, input, dt).0);
                        assert(events@ =~= spec_step_game(m1, input, dt).1);
                    }
                } else {
                    self.player = Some(p1);
                    proof {
                        lemma_star_tally(p1, self.stars@);
                    }
                    let collected = collect_stars(&p1, &mut self.stars, self.arena);
                    self.score = self.score + collected;
                    let ghost base = events@;
                    let mut emitted: u64 = 0;
                    while emitted < collected
                        invariant
                            emitted <= collected,
                            events@ == base + Seq::new(
                                emitted as nat, |i: int| GameEvent::StarCollected),
                        decreases collected - emitted,
                    {
                        events.push(GameEvent::StarCollected);
                        emitted = emitted + 1;
                        proof {
                            assert(events@ =~= base + Seq::new(
                                emitted as nat, |i: int| GameEvent::StarCollected));
                        }
                    }
                    proof {
                        assert(self@ =~= spec_step_game(m1, input, dt).0);
                        assert(events@ =~= spec_step_game(m1, input, dt).1);
                    }
                }
            }
        }
        proof {
            assert(spec_state_after_input(old(self)@.state, input.toggle_pause)
                == AppState::Game);
            assert((self@, events@) == spec_step_game(m1, input, dt));
        }
        events
    }
}

} // verus!
