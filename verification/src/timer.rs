//! Elapsed-time counters ticked once per frame: one-shot cooldown and dwell
//! timers that clamp at their duration, and repeating animation timers that
//! wrap around it. All times are whole milliseconds.

use vstd::prelude::*;

verus! {

/// Largest time value, in milliseconds, that the library handles: frame
/// deltas, durations and accumulated session times all stay below it, which
/// keeps every sum of two times inside `u64`.
pub const TIME_LIMIT: u64 = 1_000_000_000_000;

/// An elapsed/duration pair in milliseconds. A timer is finished once its
/// elapsed time has reached its duration.
#[derive(Clone, Copy, PartialEq, Eq, Structural, Debug)]
pub struct Timer {
    pub elapsed: u64,
    pub duration: u64,
}

/// The timer after one clamped tick of `dt` milliseconds: elapsed time
/// advances but never past the duration.
pub open spec fn tick_spec(t: Timer, dt: u64) -> Timer {
    if t.elapsed + dt >= t.duration {
        Timer { elapsed: t.duration, duration: t.duration }
    } else {
        Timer { elapsed: (t.elapsed + dt) as u64, duration: t.duration }
    }
}

/// The timer after the cooldown-style tick the player systems use: a
/// finished cooldown is left alone, an unfinished one ticks.
pub open spec fn cooldown_tick_spec(t: Timer, dt: u64) -> Timer {
    if t.is_finished() {
        t
    } else {
        tick_spec(t, dt)
    }
}

impl Timer {
    pub open spec fn is_finished(self) -> bool {
        self.elapsed >= self.duration
    }

    /// A fresh timer that has not run at all.
    pub fn new(duration: u64) -> (t: Timer)
        ensures
            t == (Timer { elapsed: 0, duration }),
    {
        Timer { elapsed: 0, duration }
    }

    /// A timer that starts already finished, as the jump cooldown does so
    /// that the very first jump is not delayed.
    pub fn finished_timer(duration: u64) -> (t: Timer)
        ensures
            t == (Timer { elapsed: duration, duration }),
            t.is_finished(),
    {
        Timer { elapsed: duration, duration }
    }

    pub fn finished(&self) -> (b: bool)
        ensures
            b == self.is_finished(),
    {
        self.elapsed >= self.duration
    }

    pub fn reset(&mut self)
        ensures
            *final(self) == (Timer { elapsed: 0, duration: old(self).duration }),
    {
        self.elapsed = 0;
    }

    /// Advances the timer by `dt`, clamping at the duration, and reports
    /// whether this tick is the one that finished it.
    pub fn tick(&mut self, dt: u64) -> (just_finished: bool)
        ensures
            *final(self) == tick_spec(*old(self), dt),
            just_finished == (final(self).is_finished() && !old(self).is_finished()),
    {
        let was_finished = self.elapsed >= self.duration;
        let remaining = if was_finished {
            0
        } else {
            self.duration - self.elapsed
        };
        if dt >= remaining {
            self.elapsed = self.duration;
        } else {
            self.elapsed = self.elapsed + dt;
        }
        !was_finished && self.elapsed >= self.duration
    }

    /// Advances a repeating timer by `dt`: when the duration is reached the
    /// elapsed time wraps around it, and the wrap is reported.
    pub fn tick_repeating(&mut self, dt: u64) -> (fired: bool)
        requires
            1 <= old(self).duration,
            old(self).elapsed <= TIME_LIMIT,
            dt <= TIME_LIMIT,
        ensures
            final(self).duration == old(self).duration,
            fired == (old(self).elapsed + dt >= old(self).duration),
            final(self).elapsed == if old(self).elapsed + dt >= old(self).duration {
                ((old(self).elapsed + dt) % old(self).duration as int) as u64
            } else {
                (old(self).elapsed + dt) as u64
            },
            final(self).elapsed < old(self).duration || final(self).elapsed == old(self).elapsed + dt,
    {
        let total = self.elapsed + dt;
        if total >= self.duration {
            self.elapsed = total % self.duration;
            true
        } else {
            self.elapsed = total;
            false
        }
    }
}

} // verus!
