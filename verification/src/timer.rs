//! Periodic triggers measured in whole milliseconds of elapsed game time.

use vstd::prelude::*;

verus! {

/// A repeating timer: accumulates elapsed milliseconds and fires every
/// `duration_ms`, wrapping the remainder into the next period.
#[derive(Debug, Clone, Copy, PartialEq, Eq, Structural)]
pub struct GameTimer {
    pub duration_ms: u64,
    pub elapsed_ms: u64,
}

/// Whether advancing `t` by `delta_ms` crosses a period boundary.
pub open spec fn timer_fires(t: GameTimer, delta_ms: u64) -> bool {
    t.elapsed_ms + delta_ms >= t.duration_ms
}

/// The timer after advancing by `delta_ms`: the remainder of the elapsed
/// time becomes the phase of the next period.
pub open spec fn ticked(t: GameTimer, delta_ms: u64) -> GameTimer {
    GameTimer {
        duration_ms: t.duration_ms,
        elapsed_ms: ((t.elapsed_ms + delta_ms) % (t.duration_ms as int)) as u64,
    }
}

impl GameTimer {
    /// The period is positive and the accumulated time stays inside it.
    pub open spec fn wf(self) -> bool {
        1 <= self.duration_ms && self.elapsed_ms < self.duration_ms
    }

    /// A fresh timer with the given period and no accumulated time.
    pub fn new(duration_ms: u64) -> (t: Self)
        requires
            duration_ms >= 1,
        ensures
            t.wf(),
            t.duration_ms == duration_ms,
            t.elapsed_ms == 0,
    {
        Self { duration_ms, elapsed_ms: 0 }
    }

    /// Advance the timer by `delta_ms`; reports whether a period boundary
    /// was crossed, and keeps the remainder as the new phase.
    pub fn tick(&mut self, delta_ms: u64) -> (fired: bool)
        requires
            old(self).wf(),
            delta_ms <= u64::MAX - old(self).duration_ms,
        ensures
            final(self).wf(),
            final(self).duration_ms == old(self).duration_ms,
            fired == timer_fires(*old(self), delta_ms),
            *final(self) == ticked(*old(self), delta_ms),
    {
        let total = self.elapsed_ms + delta_ms;
        self.elapsed_ms = total % self.duration_ms;
        total >= self.duration_ms
    }

    /// Change the period; the accumulated time is kept, so callers that
    /// shrink the period follow up with `reset`.
    pub fn set_duration(&mut self, duration_ms: u64)
        requires
            duration_ms >= 1,
        ensures
            final(self).duration_ms == duration_ms,
            final(self).elapsed_ms == old(self).elapsed_ms,
    {
        self.duration_ms = duration_ms;
    }

    /// Start the current period from the beginning.
    pub fn reset(&mut self)
        ensures
            final(self).duration_ms == old(self).duration_ms,
            final(self).elapsed_ms == 0,
    {
        self.elapsed_ms = 0;
    }
}

/// The coarse auto-drop trigger; its period shrinks as the score grows.
#[derive(Debug, Clone, Copy, PartialEq, Eq, Structural)]
pub struct MoveDownTimer(pub GameTimer);

/// The fine trigger that paces held-direction manual movement.
#[derive(Debug, Clone, Copy, PartialEq, Eq, Structural)]
pub struct ManualMoveTimer(pub GameTimer);

} // verus!
