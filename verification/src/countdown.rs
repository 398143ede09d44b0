//! One-shot countdown timers.
//!
//! A countdown runs from zero elapsed time up to a fixed duration and then
//! stays finished; elapsed time never exceeds the duration.  Durations and
//! deltas are measured in microseconds.

use vstd::prelude::*;

verus! {

/// A one-shot countdown: finished once `elapsed_us` has reached `duration_us`.
#[derive(Clone, Copy, PartialEq, Eq, Structural, Debug)]
pub struct Countdown {
    pub elapsed_us: u64,
    pub duration_us: u64,
}

/// The countdown after `delta_us` more microseconds have passed; elapsed
/// time saturates at the duration.
pub open spec fn countdown_tick(c: Countdown, delta_us: u64) -> Countdown {
    if delta_us >= c.duration_us - c.elapsed_us {
        Countdown { elapsed_us: c.duration_us, duration_us: c.duration_us }
    } else {
        Countdown { elapsed_us: (c.elapsed_us + delta_us) as u64, duration_us: c.duration_us }
    }
}

impl Countdown {
    /// The countdown is in a state its operations can produce.
    pub open spec fn wf(self) -> bool {
        self.elapsed_us <= self.duration_us
    }

    /// The countdown has run its full duration.
    pub open spec fn spec_finished(self) -> bool {
        self.elapsed_us >= self.duration_us
    }

    /// Microseconds left until the countdown finishes.
    pub open spec fn spec_remaining(self) -> int {
        self.duration_us - self.elapsed_us
    }

    /// A countdown that will finish after `duration_us` microseconds.
    pub fn from_micros(duration_us: u64) -> (r: Countdown)
        ensures
            r == (Countdown { elapsed_us: 0, duration_us }),
            r.wf(),
    {
        Countdown { elapsed_us: 0, duration_us }
    }

    /// A countdown that is already finished.
    pub fn elapsed() -> (r: Countdown)
        ensures
            r == (Countdown { elapsed_us: 0, duration_us: 0 }),
            r.wf(),
            r.spec_finished(),
    {
        Countdown { elapsed_us: 0, duration_us: 0 }
    }

    /// Advances the countdown by `delta_us`; elapsed time saturates at the
    /// duration, so a finished countdown stays exactly finished.
    pub fn tick(&mut self, delta_us: u64)
        requires
            old(self).wf(),
        ensures
            *final(self) == countdown_tick(*old(self), delta_us),
            final(self).wf(),
            final(self).spec_finished() <==> delta_us >= old(self).spec_remaining(),
    {
        let headroom: u64 = self.duration_us - self.elapsed_us;
        if delta_us >= headroom {
            self.elapsed_us = self.duration_us;
        } else {
            self.elapsed_us = self.elapsed_us + delta_us;
        }
    }

    /// True iff the countdown has run its full duration.
    pub fn finished(&self) -> (r: bool)
        ensures
            r == self.spec_finished(),
    {
        self.elapsed_us >= self.duration_us
    }

    /// Microseconds left until the countdown finishes.
    pub fn remaining_micros(&self) -> (r: u64)
        requires
            self.wf(),
        ensures
            r == self.spec_remaining(),
    {
        self.duration_us - self.elapsed_us
    }

    /// Starts the countdown over from zero elapsed time.
    pub fn reset(&mut self)
        ensures
            *final(self) == (Countdown { elapsed_us: 0, duration_us: old(self).duration_us }),
            final(self).wf(),
    {
        self.elapsed_us = 0;
    }
}

impl Default for Countdown {
    /// A zero-duration countdown, finished from the start.
    fn default() -> (r: Countdown)
        ensures
            r == (Countdown { elapsed_us: 0, duration_us: 0 }),
    {
        Countdown { elapsed_us: 0, duration_us: 0 }
    }
}

} // verus!
