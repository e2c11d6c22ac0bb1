//! Configuration-time failures. Per-frame simulation operations are total
//! and never fail; the only errors the core can report arise when the run is
//! being set up.

use vstd::prelude::*;

verus! {

/// A startup precondition failure.
#[derive(Clone, Copy, Debug, PartialEq, Eq, Structural)]
pub enum SimError {
    /// The window collaborator reported no usable playfield bounds.
    MissingArena,
    /// A timer was constructed with a zero or oversized duration.
    InvalidTimerDuration,
}

impl SimError {
    /// A human-readable diagnostic for the failure.
    pub fn describe(&self) -> (s: &'static str)
    {
        match self {
            SimError::MissingArena => "cannot find window",
            SimError::InvalidTimerDuration => "timer duration must be positive",
        }
    }
}

} // verus!
