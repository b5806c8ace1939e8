//! Countdown timers ticked by elapsed frame time, in whole milliseconds.
//!
//! A one-shot timer accumulates elapsed time up to its duration and then
//! stays finished; a repeating timer wraps around its duration and reports
//! each completed lap on the tick that crossed it.

use vstd::prelude::*;

verus! {

/// The timer `t` advanced by `delta_ms`: a one-shot timer caps its
/// elapsed time at its duration, a repeating timer wraps it, and
/// `just_finished` records whether this tick completed the cycle.
pub open spec fn spec_tick(t: Timer, delta_ms: u32) -> Timer {
    if t.repeating {
        if t.duration_ms == 0 {
            Timer { elapsed_ms: 0, just_finished: true, ..t }
        } else {
            Timer {
                elapsed_ms: ((t.elapsed_ms + delta_ms) % (t.duration_ms as int)) as u32,
                just_finished: t.elapsed_ms + delta_ms >= t.duration_ms,
                ..t
            }
        }
    } else {
        Timer {
            elapsed_ms: if t.elapsed_ms + delta_ms >= t.duration_ms {
                t.duration_ms
            } else {
                (t.elapsed_ms + delta_ms) as u32
            },
            just_finished: t.elapsed_ms < t.duration_ms && t.elapsed_ms + delta_ms
                >= t.duration_ms,
            ..t
        }
    }
}

/// A fresh timer with nothing elapsed.
pub open spec fn spec_new_timer(duration_ms: u32, repeating: bool) -> Timer {
    Timer { duration_ms, elapsed_ms: 0, repeating, just_finished: false }
}

/// A timer driven by per-frame elapsed milliseconds.
pub struct Timer {
    /// Full duration of one cycle, in milliseconds.
    pub duration_ms: u32,
    /// Time accumulated in the current cycle, in milliseconds.
    pub elapsed_ms: u32,
    /// A repeating timer wraps on completion; a one-shot timer stops.
    pub repeating: bool,
    /// Whether the most recent `tick` completed a cycle.
    pub just_finished: bool,
}

impl Timer {
    /// Elapsed time stays within one cycle.
    pub open spec fn wf(self) -> bool {
        self.elapsed_ms <= self.duration_ms
            && (self.repeating && self.duration_ms > 0 ==> self.elapsed_ms < self.duration_ms)
    }

    /// A fresh timer with nothing elapsed.
    pub fn new(duration_ms: u32, repeating: bool) -> (r: Timer)
        ensures
            r == spec_new_timer(duration_ms, repeating),
            r.duration_ms == duration_ms,
            r.elapsed_ms == 0,
            r.repeating == repeating,
            !r.just_finished,
            r.wf(),
    {
        Timer { duration_ms, elapsed_ms: 0, repeating, just_finished: false }
    }

    /// A one-shot timer finishes once its elapsed time reaches its duration;
    /// a repeating timer reports finished exactly on the ticks that complete
    /// a cycle.
    pub open spec fn spec_finished(self) -> bool {
        if self.repeating {
            self.just_finished
        } else {
            self.elapsed_ms >= self.duration_ms
        }
    }

    /// Advances the timer by `delta_ms`. A one-shot timer caps its elapsed
    /// time at its duration; a repeating timer wraps it. `just_finished`
    /// reports whether this tick completed the cycle.
    pub fn tick(&mut self, delta_ms: u32)
        requires
            old(self).wf(),
        ensures
            *final(self) == spec_tick(*old(self), delta_ms),
            final(self).duration_ms == old(self).duration_ms,
            final(self).repeating == old(self).repeating,
            final(self).wf(),
            !old(self).repeating ==> {
                &&& final(self).elapsed_ms == if old(self).elapsed_ms + delta_ms
                    >= old(self).duration_ms {
                    old(self).duration_ms as int
                } else {
                    old(self).elapsed_ms + delta_ms
                }
                &&& final(self).just_finished == (old(self).elapsed_ms < old(self).duration_ms
                    && old(self).elapsed_ms + delta_ms >= old(self).duration_ms)
            },
            old(self).repeating && old(self).duration_ms > 0 ==> {
                &&& final(self).elapsed_ms == (old(self).elapsed_ms + delta_ms) % (
                old(self).duration_ms as int)
                &&& final(self).just_finished == (old(self).elapsed_ms + delta_ms
                    >= old(self).duration_ms)
            },
            old(self).repeating && old(self).duration_ms == 0 ==> {
                &&& final(self).elapsed_ms == 0
                &&& final(self).just_finished
            },
    {
        if self.repeating {
            if self.duration_ms == 0 {
                self.elapsed_ms = 0;
                self.just_finished = true;
            } else {
                let total: u64 = self.elapsed_ms as u64 + delta_ms as u64;
                self.just_finished = total >= self.duration_ms as u64;
                self.elapsed_ms = (total % self.duration_ms as u64) as u32;
            }
        } else {
            let total: u64 = self.elapsed_ms as u64 + delta_ms as u64;
            self.just_finished = self.elapsed_ms < self.duration_ms
                && total >= self.duration_ms as u64;
            self.elapsed_ms = if total >= self.duration_ms as u64 {
                self.duration_ms
            } else {
                total as u32
            };
        }
    }

    /// Whether the timer has completed (see `spec_finished`).
    pub fn finished(&self) -> (r: bool)
        ensures
            r == self.spec_finished(),
    {
        if self.repeating {
            self.just_finished
        } else {
            self.elapsed_ms >= self.duration_ms
        }
    }

    /// Milliseconds left in the current cycle.
    pub fn remaining_ms(&self) -> (r: u32)
        requires
            self.wf(),
        ensures
            r == self.duration_ms - self.elapsed_ms,
    {
        self.duration_ms - self.elapsed_ms
    }

    /// Restarts the cycle from zero.
    pub fn reset(&mut self)
        ensures
            final(self).duration_ms == old(self).duration_ms,
            final(self).repeating == old(self).repeating,
            final(self).elapsed_ms == 0,
            !final(self).just_finished,
            final(self).wf(),
    {
        self.elapsed_ms = 0;
        self.just_finished = false;
    }
}

impl Clone for Timer {
    fn clone(&self) -> (r: Timer)
        ensures
            r == *self,
    {
        Timer {
            duration_ms: self.duration_ms,
            elapsed_ms: self.elapsed_ms,
            repeating: self.repeating,
            just_finished: self.just_finished,
        }
    }
}

} // verus!
