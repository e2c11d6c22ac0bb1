use arena_core::errors::SimError;
use arena_core::geometry::Arena;
use arena_core::geometry::Vec2;
use arena_core::input::velocity_from_input;
use arena_core::input::InputState;
use arena_core::collision::overlaps;
use arena_core::motion::confine_enemy;
use arena_core::motion::confine_position;
use arena_core::motion::move_position;
use arena_core::states::toggle_app_state;
use arena_core::states::AppState;
use arena_core::timer::Timer;
use arena_core::world::arena_from_window;

#[test]
fn arena_center_is_half_dimensions() {
    let arena = Arena::new(1200, 800);
    let c = arena.center();
    assert_eq!(c, Vec2::new(600, 400));
}

#[test]
fn arena_from_window_reports_missing_window() {
    assert_eq!(arena_from_window(None), Err(SimError::MissingArena));
}

#[test]
fn arena_from_window_rejects_bounds_too_small_for_entities() {
    assert_eq!(arena_from_window(Some((50, 50))), Err(SimError::MissingArena));
    assert_eq!(arena_from_window(Some((1200, -1))), Err(SimError::MissingArena));
}

#[test]
fn arena_from_window_accepts_default_window() {
    let arena = arena_from_window(Some((1200, 800))).unwrap();
    assert_eq!(arena.width, 1200);
    assert_eq!(arena.height, 800);
}

#[test]
fn timer_rejects_zero_duration() {
    assert_eq!(Timer::new(0, true), Err(SimError::InvalidTimerDuration));
}

#[test]
fn error_descriptions_are_stable() {
    assert_eq!(SimError::MissingArena.describe(), "cannot find window");
    assert_eq!(
        SimError::InvalidTimerDuration.describe(),
        "timer duration must be positive"
    );
}

#[test]
fn repeating_timer_fires_on_period_and_keeps_remainder() {
    let mut t = Timer::new(10_000, true).unwrap();
    assert!(!t.advance(9_999));
    assert!(t.advance(2));
    assert_eq!(t.elapsed_ms, 1);
}

#[test]
fn one_shot_timer_fires_once_and_saturates() {
    let mut t = Timer::new(2_500, false).unwrap();
    assert!(!t.advance(2_499));
    assert!(!t.finished());
    assert!(t.advance(1_000));
    assert!(t.finished());
    assert_eq!(t.elapsed_ms, 2_500);
    assert!(!t.advance(1_000));
    assert!(t.finished());
}

#[test]
fn movement_scales_velocity_by_elapsed_milliseconds() {
    let p = move_position(Vec2::new(600, 400), Vec2::new(500, -100), 1_000);
    assert_eq!(p, Vec2::new(1_100, 300));
    let q = move_position(Vec2::new(600, 400), Vec2::new(500, -100), 16);
    assert_eq!(q, Vec2::new(608, 399));
}

#[test]
fn movement_with_zero_delta_is_still() {
    let p = move_position(Vec2::new(600, 400), Vec2::new(500, 500), 0);
    assert_eq!(p, Vec2::new(600, 400));
}

#[test]
fn player_movement_integrates_held_keys() {
    let held = InputState {
        up: false,
        down: true,
        left: false,
        right: true,
        toggle_pause: false,
    };
    // Diagonal: 353 units/s on each axis for one second.
    let moved = arena_core::motion::player_movement(Vec2::new(600, 400), held, 500, 1_000);
    assert_eq!(moved, Vec2::new(953, 47));
}

#[test]
fn cardinal_input_moves_at_full_speed() {
    let held = InputState {
        up: false,
        down: false,
        left: false,
        right: true,
        toggle_pause: false,
    };
    assert_eq!(velocity_from_input(held, 500), Vec2::new(500, 0));
}

#[test]
fn diagonal_input_keeps_combined_speed_constant() {
    let held = InputState {
        up: true,
        down: false,
        left: false,
        right: true,
        toggle_pause: false,
    };
    // 500 * 707 / 1000 per axis.
    assert_eq!(velocity_from_input(held, 500), Vec2::new(353, 353));
}

#[test]
fn opposite_keys_cancel_out() {
    let held = InputState {
        up: true,
        down: true,
        left: true,
        right: false,
        toggle_pause: false,
    };
    assert_eq!(velocity_from_input(held, 500), Vec2::new(-500, 0));
}

#[test]
fn confinement_clamps_each_axis_to_radius_band() {
    let arena = Arena::new(1200, 800);
    assert_eq!(
        confine_position(Vec2::new(-30, 900), 64, arena),
        Vec2::new(64, 736)
    );
    assert_eq!(
        confine_position(Vec2::new(600, 400), 64, arena),
        Vec2::new(600, 400)
    );
}

#[test]
fn confinement_twice_equals_confinement_once() {
    let arena = Arena::new(1200, 800);
    let once = confine_position(Vec2::new(5_000, -5_000), 64, arena);
    let twice = confine_position(once, 64, arena);
    assert_eq!(once, twice);
}

#[test]
fn enemy_bounce_flips_the_touching_axis_only() {
    let arena = Arena::new(1200, 800);
    let out = confine_enemy(Vec2::new(1_195, 400), Vec2::new(50, 30), 64, arena);
    assert_eq!(out.pos, Vec2::new(1_136, 400));
    assert_eq!(out.vel, Vec2::new(-50, 30));
    assert!(out.bounced);
}

#[test]
fn corner_hit_flips_both_axes_in_the_same_frame() {
    let arena = Arena::new(1200, 800);
    let out = confine_enemy(Vec2::new(2, 799), Vec2::new(-40, 40), 64, arena);
    assert_eq!(out.pos, Vec2::new(64, 736));
    assert_eq!(out.vel, Vec2::new(40, -40));
    assert!(out.bounced);
}

#[test]
fn interior_enemy_does_not_bounce() {
    let arena = Arena::new(1200, 800);
    let out = confine_enemy(Vec2::new(600, 400), Vec2::new(50, 30), 64, arena);
    assert_eq!(out.pos, Vec2::new(600, 400));
    assert_eq!(out.vel, Vec2::new(50, 30));
    assert!(!out.bounced);
}

#[test]
fn overlap_is_strict_on_the_radius_sum() {
    let a = Vec2::new(0, 0);
    // Radii sum to 100; distance 100 does not overlap, 99 does.
    assert!(!overlaps(a, 40, Vec2::new(100, 0), 60));
    assert!(overlaps(a, 40, Vec2::new(99, 0), 60));
}

#[test]
fn overlap_is_symmetric() {
    let a = Vec2::new(600, 400);
    let b = Vec2::new(650, 380);
    assert_eq!(overlaps(a, 64, b, 15), overlaps(b, 15, a, 64));
    let far = Vec2::new(1, 1);
    assert_eq!(overlaps(a, 64, far, 15), overlaps(far, 15, a, 64));
}

#[test]
fn pause_toggle_swaps_game_and_paused_only() {
    assert_eq!(toggle_app_state(AppState::Game, true), AppState::Paused);
    assert_eq!(toggle_app_state(AppState::Paused, true), AppState::Game);
    assert_eq!(toggle_app_state(AppState::Menu, true), AppState::Menu);
    assert_eq!(toggle_app_state(AppState::GameOver, true), AppState::GameOver);
    assert_eq!(toggle_app_state(AppState::Game, false), AppState::Game);
}
