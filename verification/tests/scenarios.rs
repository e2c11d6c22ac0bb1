use arena_core::entities::Enemy;
use arena_core::entities::EnemyDifficultyEnum;
use arena_core::entities::Star;
use arena_core::entities::ENEMY_RADIUS;
use arena_core::entities::INITIAL_ENEMY_NUMBER;
use arena_core::entities::INITIAL_STAR_NUMBER;
use arena_core::entities::PLAYER_RADIUS;
use arena_core::entities::PLAYER_SPEED;
use arena_core::entities::STAR_RADIUS;
use arena_core::events::GameEvent;
use arena_core::geometry::Arena;
use arena_core::geometry::Vec2;
use arena_core::input::InputState;
use arena_core::states::AppState;
use arena_core::world::World;

fn default_arena() -> Arena {
    Arena::new(1200, 800)
}

fn idle() -> InputState {
    InputState::idle()
}

fn enemy_at(x: i64, y: i64, vx: i64, vy: i64) -> Enemy {
    Enemy {
        pos: Vec2::new(x, y),
        vel: Vec2::new(vx, vy),
        radius: ENEMY_RADIUS,
        difficulty: EnemyDifficultyEnum::Easy,
    }
}

#[test]
fn new_world_starts_an_active_run_with_zero_score() {
    let w = World::new(default_arena());
    assert_eq!(w.state, AppState::Game);
    assert_eq!(w.score, 0);
    assert!(w.player.is_none());
    assert!(w.enemies.is_empty());
    assert!(w.stars.is_empty());
}

#[test]
fn spawn_player_places_the_player_at_the_centre_once() {
    let mut w = World::new(default_arena());
    w.spawn_player();
    let p = w.player.unwrap();
    assert_eq!(p.pos, Vec2::new(600, 400));
    assert_eq!(p.speed, PLAYER_SPEED);
    assert_eq!(p.radius, PLAYER_RADIUS);
    assert!(p.is_invincible);
    // A second spawn leaves the existing player untouched.
    w.player.as_mut().unwrap().pos = Vec2::new(100, 100);
    w.spawn_player();
    assert_eq!(w.player.unwrap().pos, Vec2::new(100, 100));
}

#[test]
fn startup_batches_spawn_inside_the_arena() {
    let mut w = World::new(default_arena());
    w.spawn_enemies(INITIAL_ENEMY_NUMBER);
    w.spawn_stars(INITIAL_STAR_NUMBER);
    assert_eq!(w.enemies.len(), INITIAL_ENEMY_NUMBER);
    assert_eq!(w.stars.len(), INITIAL_STAR_NUMBER);
    for e in &w.enemies {
        assert!(0 <= e.pos.x && e.pos.x < 1200);
        assert!(0 <= e.pos.y && e.pos.y < 800);
        assert!(0 <= e.vel.x && e.vel.x <= 200);
        assert!(0 <= e.vel.y && e.vel.y <= 200);
        assert_eq!(e.radius, ENEMY_RADIUS);
    }
    for s in &w.stars {
        assert!(0 <= s.pos.x && s.pos.x < 1200);
        assert!(0 <= s.pos.y && s.pos.y < 800);
        assert_eq!(s.radius, STAR_RADIUS);
    }
}

#[test]
fn overlapping_enemy_explodes_the_player_after_invincibility() {
    // Arena 1200x800; player radius 64 at (600,400); enemy radius 64 at the
    // same spot; the invincibility window has elapsed.
    let mut w = World::new(default_arena());
    w.spawn_player();
    w.enemies.push(enemy_at(600, 400, 0, 0));
    let events = w.step(idle(), 2_600);
    assert_eq!(events, vec![GameEvent::PlayerExploded]);
    assert!(w.player.is_none());
    assert_eq!(w.state, AppState::GameOver);
    assert_eq!(w.score, 0);
}

#[test]
fn overlapping_enemy_spares_the_invincible_player() {
    let mut w = World::new(default_arena());
    w.spawn_player();
    w.enemies.push(enemy_at(600, 400, 0, 0));
    let events = w.step(idle(), 16);
    assert!(events.is_empty());
    assert!(w.player.is_some());
    assert_eq!(w.state, AppState::Game);
}

#[test]
fn touched_star_is_collected_and_scores_one() {
    // Star radius 15 at (100,100); player moved to (100,100).
    let mut w = World::new(default_arena());
    w.spawn_player();
    w.player.as_mut().unwrap().pos = Vec2::new(100, 100);
    w.stars.push(Star {
        pos: Vec2::new(100, 100),
        radius: STAR_RADIUS,
    });
    let events = w.step(idle(), 16);
    assert_eq!(events, vec![GameEvent::StarCollected]);
    assert_eq!(w.score, 1);
    assert!(w.stars.is_empty());
    assert!(w.player.is_some());
}

#[test]
fn every_overlapped_star_is_collected_in_the_same_frame() {
    let mut w = World::new(default_arena());
    w.spawn_player();
    w.stars.push(Star {
        pos: Vec2::new(590, 400),
        radius: STAR_RADIUS,
    });
    w.stars.push(Star {
        pos: Vec2::new(60, 60),
        radius: STAR_RADIUS,
    });
    w.stars.push(Star {
        pos: Vec2::new(610, 410),
        radius: STAR_RADIUS,
    });
    let events = w.step(idle(), 16);
    assert_eq!(
        events,
        vec![GameEvent::StarCollected, GameEvent::StarCollected]
    );
    assert_eq!(w.score, 2);
    // Only the far star remains, and it is not re-counted later.
    assert_eq!(w.stars.len(), 1);
    assert_eq!(w.stars[0].pos, Vec2::new(60, 60));
    let events = w.step(idle(), 16);
    assert!(events.is_empty());
    assert_eq!(w.score, 2);
}

#[test]
fn enemy_at_the_wall_clamps_and_reflects_in_one_step() {
    // Enemy at (1195,400) with radius 64 moving at (+50,0): one pass clamps
    // x to 1136 and the horizontal velocity becomes -50.
    let mut w = World::new(default_arena());
    w.enemies.push(enemy_at(1_195, 400, 50, 0));
    let events = w.step(idle(), 20);
    assert_eq!(events, vec![GameEvent::EnemyBounced]);
    assert_eq!(w.enemies[0].pos, Vec2::new(1_136, 400));
    assert_eq!(w.enemies[0].vel, Vec2::new(-50, 0));
}

#[test]
fn pausing_freezes_every_entity() {
    // Toggling pause while in Game transitions to Paused; a paused frame
    // moves nothing, scores nothing, and spawns nothing.
    let mut w = World::new(default_arena());
    w.spawn_player();
    w.enemies.push(enemy_at(300, 300, 120, -80));
    let toggle = InputState {
        toggle_pause: true,
        ..idle()
    };
    let events = w.step(toggle, 16);
    assert_eq!(w.state, AppState::Paused);
    assert!(events.is_empty());
    let positions_before: Vec<Vec2> = w.enemies.iter().map(|e| e.pos).collect();
    let player_before = w.player.unwrap().pos;
    let held = InputState {
        right: true,
        ..idle()
    };
    let events = w.step(held, 20_000);
    assert!(events.is_empty());
    assert_eq!(w.state, AppState::Paused);
    assert_eq!(w.player.unwrap().pos, player_before);
    let positions_after: Vec<Vec2> = w.enemies.iter().map(|e| e.pos).collect();
    assert_eq!(positions_before, positions_after);
    assert!(w.stars.is_empty());
    assert_eq!(w.enemies.len(), 1);
    // Toggling again resumes the run.
    w.step(toggle, 16);
    assert_eq!(w.state, AppState::Game);
}

#[test]
fn toggle_does_nothing_after_the_run_ends() {
    let mut w = World::new(default_arena());
    w.spawn_player();
    w.enemies.push(enemy_at(600, 400, 0, 0));
    w.step(idle(), 2_600);
    assert_eq!(w.state, AppState::GameOver);
    let toggle = InputState {
        toggle_pause: true,
        ..idle()
    };
    let events = w.step(toggle, 16);
    assert!(events.is_empty());
    assert_eq!(w.state, AppState::GameOver);
}

#[test]
fn spawn_timers_add_entities_over_time() {
    let mut w = World::new(default_arena());
    // One second fires the star timer but not the enemy timer.
    let events = w.step(idle(), 1_000);
    assert!(events.is_empty());
    assert_eq!(w.enemies.len(), 0);
    assert_eq!(w.stars.len(), 1);
    // Ten more seconds fire both.
    w.step(idle(), 10_000);
    assert_eq!(w.enemies.len(), 1);
    assert_eq!(w.stars.len(), 2);
    let e = &w.enemies[0];
    assert!(0 <= e.pos.x && e.pos.x <= 1200);
    assert!(0 <= e.pos.y && e.pos.y <= 800);
}

#[test]
fn player_movement_is_confined_to_the_arena() {
    let mut w = World::new(default_arena());
    w.spawn_player();
    let held = InputState {
        right: true,
        ..idle()
    };
    // Two seconds at 500 units/s from x=600 would reach 1600; the confiner
    // caps the centre at width - radius.
    let mut dt_left: i64 = 2_000;
    while dt_left > 0 {
        w.step(held, 500);
        dt_left -= 500;
    }
    let p = w.player.unwrap();
    assert_eq!(p.pos, Vec2::new(1_136, 400));
}

#[test]
fn score_never_decreases_over_a_run() {
    let mut w = World::new(default_arena());
    w.spawn_player();
    w.spawn_stars(INITIAL_STAR_NUMBER);
    let mut last: u64 = 0;
    let held = InputState {
        right: true,
        up: true,
        ..idle()
    };
    for _ in 0..200 {
        if w.state != AppState::Game && w.player.is_none() {
            break;
        }
        w.step(held, 50);
        assert!(w.score >= last);
        last = w.score;
    }
}
