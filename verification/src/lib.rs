//! Arena-bounded 2D simulation core for an "avoid the enemies, collect the
//! stars" arcade game.
//!
//! The library is engine-independent: positions, velocities and time are held
//! as plain integers (game units and milliseconds), and all rendering, audio,
//! input polling and windowing are left to the surrounding program, which
//! feeds the core plain values each frame.

pub mod collision;
pub mod entities;
pub mod errors;
pub mod events;
pub mod geometry;
pub mod input;
pub mod motion;
mod rng;
pub mod states;
pub mod timer;
pub mod world;

pub use entities::Enemy;
pub use entities::EnemyDifficultyEnum;
pub use entities::Player;
pub use entities::Star;
pub use errors::SimError;
pub use events::GameEvent;
pub use geometry::Arena;
pub use geometry::Vec2;
pub use input::InputState;
pub use states::AppState;
pub use timer::Timer;
pub use world::arena_from_window;
pub use world::World;
pub use world::WorldModel;
