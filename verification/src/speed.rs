//! The run-speed ramp: a scalar speed that climbs toward a maximum in
//! discrete timer-paced steps while the avatar runs, and snaps back to its base
//! after a short idle grace period.
//!
//! Speeds are in thousandths of a unit per tick; the acceleration rate is in
//! thousandths (2500 stands for 2.5 per second of gap closed).

use crate::countdown::Countdown;
use crate::countdown::countdown_tick;
use vstd::prelude::*;

verus! {

/// Base run speed, in thousandths of a unit.
pub const SPEED_BASE: i64 = 4_000;

/// Top run speed, in thousandths of a unit.
pub const SPEED_MAX: i64 = 20_000;

/// Acceleration rate, in thousandths per second of gap closed.
pub const SPEED_ACCEL: i64 = 2_500;

/// How often the ramp may step, in microseconds.
pub const ACCEL_STEP_US: u64 = 300_000;

/// Idle grace period before the speed resets, in microseconds.
pub const IDLE_RESET_US: u64 = 100_000;

/// Largest speed value the model admits, in thousandths of a unit.
pub const SPEED_CAP: i64 = 1_000_000;

/// Largest acceleration rate the model admits.
pub const ACCEL_CAP: i64 = 100_000;

/// The run-speed ramp.
#[derive(Clone, Copy, PartialEq, Eq, Structural, Debug)]
pub struct Speed {
    pub current: i64,
    pub accel: i64,
    pub base: i64,
    pub max: i64,
    pub base_max: i64,
    pub accel_timer: Countdown,
    pub reset_timer: Countdown,
}

/// The ramp after accelerating over `delta_us` microseconds: the step
/// countdown advances, and only when it has finished does the current speed
/// move toward the maximum by `(max - current) * accel * delta_us / 1e9`
/// (the fixed-point form of `(max - current) * accel * seconds`), never past
/// the maximum.
pub open spec fn speed_accelerate(s: Speed, delta_us: u64) -> Speed {
    let t = countdown_tick(s.accel_timer, delta_us);
    if t.spec_finished() {
        let gap = s.max - s.current;
        let step = gap * s.accel * delta_us / 1_000_000_000;
        let cur = if step >= gap {
            s.max as int
        } else {
            s.current + step
        };
        Speed { current: cur as i64, accel_timer: t, ..s }
    } else {
        Speed { accel_timer: t, ..s }
    }
}

impl Speed {
    /// The ramp's fields are within the model's caps and ordered
    /// `0 <= base <= current <= max`, with the base maximum at least the
    /// base; the countdowns are well formed.
    pub open spec fn wf(self) -> bool {
        &&& 0 <= self.base <= self.current <= self.max <= SPEED_CAP
        &&& self.base <= self.base_max <= SPEED_CAP
        &&& 0 <= self.accel <= ACCEL_CAP
        &&& self.accel_timer.wf()
        &&& self.reset_timer.wf()
    }

    /// The current run speed, in thousandths of a unit.
    pub fn current(&self) -> (r: i64)
        ensures
            r == self.current,
    {
        self.current
    }

    /// Snaps the speed back to its base, restores the base maximum, and
    /// restarts the acceleration step countdown.
    pub fn reset(&mut self)
        requires
            old(self).wf(),
        ensures
            *final(self) == (Speed {
                current: old(self).base,
                max: old(self).base_max,
                accel_timer: Countdown {
                    elapsed_us: 0,
                    duration_us: old(self).accel_timer.duration_us,
                },
                ..*old(self)
            }),
            final(self).wf(),
    {
        self.current = self.base;
        self.max = self.base_max;
        self.accel_timer.reset();
    }

    /// Advances the idle-reset countdown.  Call on each tick without
    /// active movement input.
    pub fn tick_reset_timer(&mut self, delta_us: u64)
        requires
            old(self).wf(),
        ensures
            *final(self) == (Speed {
                reset_timer: countdown_tick(old(self).reset_timer, delta_us),
                ..*old(self)
            }),
            final(self).wf(),
    {
        self.reset_timer.tick(delta_us);
    }

    /// Restarts the idle grace period.  Call on each tick with active
    /// movement input.
    pub fn reset_reset_timer(&mut self)
        requires
            old(self).wf(),
        ensures
            *final(self) == (Speed {
                reset_timer: Countdown { elapsed_us: 0, duration_us: IDLE_RESET_US },
                ..*old(self)
            }),
            final(self).wf(),
    {
        self.reset_timer = Countdown::from_micros(IDLE_RESET_US);
    }

    /// True iff the idle grace period has lapsed, so the speed should
    /// snap back to its base.
    pub fn should_reset(&self) -> (r: bool)
        ensures
            r == self.reset_timer.spec_finished(),
    {
        self.reset_timer.finished()
    }

    /// Accelerates toward the maximum, as [`speed_accelerate`] describes:
    /// the ramp steps only when its step countdown has finished, by a step
    /// proportional to the remaining gap and the tick length.
    pub fn accelerate(&mut self, delta_us: u64)
        requires
            old(self).wf(),
            delta_us <= 1_000_000,
        ensures
            *final(self) == speed_accelerate(*old(self), delta_us),
            final(self).wf(),
    {
        self.accel_timer.tick(delta_us);
        if self.accel_timer.finished() {
            let gap: u64 = (self.max - self.current) as u64;
            assert(gap * (self.accel as u64) <= 100_000_000_000u64) by (nonlinear_arith)
                requires
                    gap <= 1_000_000u64,
                    0 <= self.accel <= 100_000,
            ;
            let pair: u64 = gap * (self.accel as u64);
            assert(pair * delta_us <= 100_000_000_000u64 * 1_000_000) by (nonlinear_arith)
                requires
                    pair <= 100_000_000_000u64,
                    delta_us <= 1_000_000,
            ;
            let step: u64 = pair * delta_us / 1_000_000_000;
            if step >= gap {
                self.current = self.max;
            } else {
                self.current = self.current + (step as i64);
            }
        }
    }
}

impl Default for Speed {
    /// The tuned spawn configuration of the ramp.
    fn default() -> (r: Speed)
        ensures
            r == (Speed {
                current: SPEED_BASE,
                accel: SPEED_ACCEL,
                base: SPEED_BASE,
                max: SPEED_MAX,
                base_max: SPEED_MAX,
                accel_timer: Countdown { elapsed_us: 0, duration_us: ACCEL_STEP_US },
                reset_timer: Countdown { elapsed_us: 0, duration_us: IDLE_RESET_US },
            }),
            r.wf(),
    {
        Speed {
            current: SPEED_BASE,
            accel: SPEED_ACCEL,
            base: SPEED_BASE,
            max: SPEED_MAX,
            base_max: SPEED_MAX,
            accel_timer: Countdown::from_micros(ACCEL_STEP_US),
            reset_timer: Countdown::from_micros(IDLE_RESET_US),
        }
    }
}

} // verus!
