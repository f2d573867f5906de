//! Repeating countdown timers driven by elapsed microseconds.
use vstd::prelude::*;

verus! {

/// The longest duration, and the largest elapsed time, that a timer holds.
pub const TIMER_LIMIT: u64 = 1_099_511_627_776;

/// A repeating timer: it fires each time its elapsed time reaches its
/// duration, and then starts over with what was left past the duration.
#[derive(Clone, Copy, PartialEq, Eq, Debug, Structural)]
pub struct Timer {
    pub duration: u64,
    pub elapsed: u64,
}

/// Whether a tick of `dt` fires a timer in state `t`.
pub open spec fn fires(t: Timer, dt: u32) -> bool {
    t.elapsed + dt >= t.duration
}

/// The elapsed time after a tick of `dt`.
pub open spec fn elapsed_after(t: Timer, dt: u32) -> u64 {
    if !fires(t, dt) {
        (t.elapsed + dt) as u64
    } else if t.duration == 0 {
        0
    } else {
        ((t.elapsed + dt) % (t.duration as int)) as u64
    }
}

impl Timer {
    /// A timer of period `duration` that has just started.
    pub open spec fn from_duration_spec(duration: u64) -> Timer {
        Timer { duration, elapsed: 0 }
    }

    pub open spec fn wf(&self) -> bool {
        &&& self.duration <= TIMER_LIMIT
        &&& self.elapsed <= TIMER_LIMIT
    }

    pub fn from_duration(duration: u64) -> (t: Timer)
        requires
            duration <= TIMER_LIMIT,
        ensures
            t.wf(),
            t == Timer::from_duration_spec(duration),
    {
        Timer { duration, elapsed: 0 }
    }

    /// Advances the timer by `dt` microseconds and tells whether it fired.
    pub fn tick(&mut self, dt: u32) -> (fired: bool)
        requires
            old(self).wf(),
        ensures
            final(self).wf(),
            fired == fires(*old(self), dt),
            final(self).duration == old(self).duration,
            final(self).elapsed == elapsed_after(*old(self), dt),
    {
        let total: u64 = self.elapsed + dt as u64;
        if total < self.duration {
            self.elapsed = total;
            false
        } else {
            if self.duration == 0 {
                self.elapsed = 0;
            } else {
                self.elapsed = total % self.duration;
            }
            true
        }
    }

    /// Starts the current period over.
    pub fn reset(&mut self)
        requires
            old(self).wf(),
        ensures
            final(self).wf(),
            final(self).duration == old(self).duration,
            final(self).elapsed == 0,
    {
        self.elapsed = 0;
    }

    /// Changes the period, keeping the time elapsed in the current one.
    pub fn set_duration(&mut self, duration: u64)
        requires
            old(self).wf(),
            duration <= TIMER_LIMIT,
        ensures
            final(self).wf(),
            final(self).duration == duration,
            final(self).elapsed == old(self).elapsed,
    {
        self.duration = duration;
    }
}

} // verus!
