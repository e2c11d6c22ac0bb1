//! Discrete events the core emits for the audio/UI collaborator. The core
//! never waits on their consumption.

use vstd::prelude::*;

verus! {

/// Something the surrounding program may want to play a sound or update the
/// UI for.
#[derive(Clone, Copy, Debug, PartialEq, Eq, Structural)]
pub enum GameEvent {
    /// An enemy touched an arena bound and its velocity was reflected.
    EnemyBounced,
    /// The player touched a star; the star is gone and the score grew by one.
    StarCollected,
    /// The player touched an enemy after the invincibility window ran out;
    /// the run is over.
    PlayerExploded,
}

} // verus!
