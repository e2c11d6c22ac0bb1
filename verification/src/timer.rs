//! Countdown timers, advanced by the externally supplied frame delta.
//!
//! A timer holds elapsed and total milliseconds and a repeating flag. Each
//! frame the owner calls [`Timer::advance`], which reports whether the timer
//! fired during that frame. A repeating timer keeps the remainder past the
//! period; a one-shot timer saturates at its duration and fires only on the
//! frame in which it first reaches it.

use vstd::prelude::*;
use crate::errors::SimError;

verus! {

/// Largest accepted timer duration, in milliseconds.
pub const DURATION_LIMIT: u64 = 1_000_000_000;

/// Largest accepted frame delta, in milliseconds.
pub const DT_LIMIT: u64 = 1_000_000;

/// A countdown/repeat timer driven by externally supplied elapsed time.
#[derive(Clone, Copy, Debug, PartialEq, Eq, Structural)]
pub struct Timer {
    pub elapsed_ms: u64,
    pub duration_ms: u64,
    pub repeating: bool,
}

/// Whether the timer fires when advanced by `dt` milliseconds.
pub open spec fn spec_timer_fires(t: Timer, dt: u64) -> bool {
    if t.repeating {
        t.elapsed_ms + dt >= t.duration_ms
    } else {
        t.elapsed_ms < t.duration_ms && t.elapsed_ms + dt >= t.duration_ms
    }
}

/// The timer's state after advancing by `dt` milliseconds.
pub open spec fn spec_timer_advance(t: Timer, dt: u64) -> Timer {
    let total = t.elapsed_ms + dt;
    if t.repeating {
        Timer { elapsed_ms: (total % (t.duration_ms as int)) as u64, ..t }
    } else if total >= t.duration_ms {
        Timer { elapsed_ms: t.duration_ms, ..t }
    } else {
        Timer { elapsed_ms: total as u64, ..t }
    }
}

impl Timer {
    /// Elapsed never runs past the duration, and the duration is positive
    /// and bounded.
    pub open spec fn wf(self) -> bool {
        0 < self.duration_ms <= DURATION_LIMIT && self.elapsed_ms <= self.duration_ms
    }

    /// A one-shot timer has run out; used for the player's invincibility
    /// window.
    pub open spec fn spec_finished(self) -> bool {
        self.elapsed_ms >= self.duration_ms
    }

    /// Builds a timer. A zero duration is rejected at construction time, so
    /// a well-formed timer always has a positive period.
    pub fn new(duration_ms: u64, repeating: bool) -> (r: Result<Timer, SimError>)
        ensures
            r is Ok <==> 0 < duration_ms <= DURATION_LIMIT,
            r is Ok ==> r->Ok_0 == (Timer { elapsed_ms: 0, duration_ms, repeating })
                && r->Ok_0.wf(),
            r is Err ==> r->Err_0 == SimError::InvalidTimerDuration,
    {
        if duration_ms == 0 || duration_ms > DURATION_LIMIT {
            Err(SimError::InvalidTimerDuration)
        } else {
            Ok(Timer { elapsed_ms: 0, duration_ms, repeating })
        }
    }

    /// Advances the timer by `dt` milliseconds and reports whether it fired
    /// this frame.
    pub fn advance(&mut self, dt: u64) -> (fired: bool)
        requires
            old(self).wf(),
            dt <= DT_LIMIT,
        ensures
            final(self).wf(),
            fired == spec_timer_fires(*old(self), dt),
            *final(self) == spec_timer_advance(*old(self), dt),
    {
        let total = self.elapsed_ms + dt;
        if self.repeating {
            let fired = total >= self.duration_ms;
            self.elapsed_ms = total % self.duration_ms;
            fired
        } else if total >= self.duration_ms {
            let fired = self.elapsed_ms < self.duration_ms;
            self.elapsed_ms = self.duration_ms;
            fired
        } else {
            self.elapsed_ms = total;
            false
        }
    }

    /// Whether a one-shot timer has run out.
    pub fn finished(&self) -> (r: bool)
        ensures
            r == self.spec_finished(),
    {
        self.elapsed_ms >= self.duration_ms
    }
}

} // verus!
