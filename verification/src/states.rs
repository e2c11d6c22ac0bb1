//! The game state machine: Game / Paused / Menu / GameOver.
//!
//! An edge-triggered pause input flips Game and Paused. Menu and GameOver
//! are terminal with respect to that input; GameOver is entered only through
//! a fatal collision. While the state is not Game, no other system advances.

use vstd::prelude::*;

verus! {

/// The mode the simulation is in. Exactly one value is active at a time and
/// only the state-machine phase writes it. A fresh run starts active.
#[derive(Clone, Copy, Debug, PartialEq, Eq, Structural, Default)]
pub enum AppState {
    #[default]
    Game,
    Paused,
    Menu,
    GameOver,
}

/// Where the pause toggle sends each state: Game and Paused swap, Menu and
/// GameOver stay put.
pub open spec fn spec_toggle(state: AppState) -> AppState {
    match state {
        AppState::Game => AppState::Paused,
        AppState::Paused => AppState::Game,
        AppState::Menu => AppState::Menu,
        AppState::GameOver => AppState::GameOver,
    }
}

/// The state after one frame's worth of pause input: toggled when the pause
/// key was just pressed, unchanged otherwise.
pub open spec fn spec_state_after_input(state: AppState, toggle_pressed: bool) -> AppState {
    if toggle_pressed {
        spec_toggle(state)
    } else {
        state
    }
}

/// Applies the edge-triggered pause input to the current state.
pub fn toggle_app_state(state: AppState, toggle_pressed: bool) -> (next: AppState)
    ensures
        next == spec_state_after_input(state, toggle_pressed),
        !toggle_pressed ==> next == state,
        toggle_pressed && state == AppState::Game ==> next == AppState::Paused,
        toggle_pressed && state == AppState::Paused ==> next == AppState::Game,
        state == AppState::Menu || state == AppState::GameOver ==> next == state,
{
    if toggle_pressed {
        match state {
            AppState::Game => AppState::Paused,
            AppState::Paused => AppState::Game,
            AppState::Menu => AppState::Menu,
            AppState::GameOver => AppState::GameOver,
        }
    } else {
        state
    }
}

} // verus!
