//! Countdown timers in whole milliseconds, with the engine timer's
//! semantics: a one-shot timer saturates at its duration and finishes
//! exactly once; a repeating timer wraps and reports each completed lap.

use vstd::prelude::*;

verus! {

/// Whether a timer stops at its duration or starts over.
#[derive(Clone, Copy, Debug, PartialEq, Eq, Structural)]
pub enum TimerMode {
    Once,
    Repeating,
}

/// A timer advanced by whole milliseconds of elapsed frame time.
#[derive(Clone, Copy, Debug, PartialEq, Eq, Structural)]
pub struct GameTimer {
    pub duration_ms: u64,
    pub elapsed_ms: u64,
    pub mode: TimerMode,
}

impl GameTimer {
    /// A timer is well formed when its duration is positive and its
    /// elapsed time never passes the duration (never reaches it, for a
    /// repeating timer, which wraps there).
    pub open spec fn wf(self) -> bool {
        self.duration_ms > 0 && match self.mode {
            TimerMode::Once => self.elapsed_ms <= self.duration_ms,
            TimerMode::Repeating => self.elapsed_ms < self.duration_ms,
        }
    }

    /// A one-shot timer has run its full duration.
    pub open spec fn is_finished(self) -> bool {
        self.elapsed_ms >= self.duration_ms
    }

    /// A fresh timer.
    pub fn new(duration_ms: u64, mode: TimerMode) -> (r: GameTimer)
        requires
            duration_ms > 0,
        ensures
            r.wf(),
            r.duration_ms == duration_ms,
            r.elapsed_ms == 0,
            r.mode == mode,
    {
        GameTimer { duration_ms, elapsed_ms: 0, mode }
    }

    /// Advances the timer by `delta_ms` and reports whether it reached its
    /// duration on this very call: a one-shot timer reports it once and
    /// then stays finished; a repeating timer wraps and reports each lap.
    pub fn tick(&mut self, delta_ms: u64) -> (just_finished: bool)
        requires
            old(self).wf(),
            old(self).elapsed_ms + delta_ms <= u64::MAX,
        ensures
            final(self).wf(),
            final(self).duration_ms == old(self).duration_ms,
            final(self).mode == old(self).mode,
            old(self).mode == TimerMode::Once ==> {
                &&& final(self).elapsed_ms == if old(self).elapsed_ms + delta_ms
                    <= old(self).duration_ms {
                    old(self).elapsed_ms + delta_ms
                } else {
                    old(self).duration_ms as int
                }
                &&& just_finished == (!old(self).is_finished() && final(self).is_finished())
            },
            old(self).mode == TimerMode::Repeating ==> {
                &&& final(self).elapsed_ms == (old(self).elapsed_ms + delta_ms) % (
                old(self).duration_ms as int)
                &&& just_finished == (old(self).elapsed_ms + delta_ms
                    >= old(self).duration_ms)
            },
    {
        let total = self.elapsed_ms + delta_ms;
        match self.mode {
            TimerMode::Once => {
                let was_finished = self.elapsed_ms >= self.duration_ms;
                if total <= self.duration_ms {
                    self.elapsed_ms = total;
                } else {
                    self.elapsed_ms = self.duration_ms;
                }
                !was_finished && self.elapsed_ms >= self.duration_ms
            },
            TimerMode::Repeating => {
                self.elapsed_ms = total % self.duration_ms;
                total >= self.duration_ms
            },
        }
    }

    /// Whether a one-shot timer has run out.
    pub fn finished(&self) -> (r: bool)
        ensures
            r == self.is_finished(),
    {
        self.elapsed_ms >= self.duration_ms
    }
}

} // verus!
