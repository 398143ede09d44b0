//! The jump stage tracker: escalating jump power keyed on landing cadence.
//!
//! Rapid consecutive landings escalate the stage `Single -> Double ->
//! Triple`; each stage maps to a fixed jump impulse magnitude.  A landing
//! window runs while the avatar stands on the ground; once it lapses with no
//! landing, the cadence fully resets to `Single`.

use crate::countdown::Countdown;
use crate::countdown::countdown_tick;
use vstd::prelude::*;

verus! {

/// Jump impulse magnitude for `Single`, in thousandths of a unit.
pub const JUMP_FORCE_SINGLE: i64 = 10_000;

/// Jump impulse magnitude for `Double`, in thousandths of a unit.
pub const JUMP_FORCE_DOUBLE: i64 = 13_000;

/// Jump impulse magnitude for `Triple`, in thousandths of a unit.
pub const JUMP_FORCE_TRIPLE: i64 = 18_000;

/// The landing window: a landing must come within this many microseconds of
/// grounded time after the previous one for the cadence to continue.
pub const JUMP_WINDOW_US: u64 = 166_000;

/// The escalating jump power tiers.
#[derive(Clone, Copy, PartialEq, Eq, Structural, Debug)]
pub enum JumpStage {
    Single,
    Double,
    Triple,
}

/// How many escalations the stage is above `Single`.
pub open spec fn stage_level(stage: JumpStage) -> int {
    match stage {
        JumpStage::Single => 0,
        JumpStage::Double => 1,
        JumpStage::Triple => 2,
    }
}

/// The jump impulse magnitude of a stage.
pub open spec fn spec_stage_force(stage: JumpStage) -> int {
    match stage {
        JumpStage::Single => JUMP_FORCE_SINGLE as int,
        JumpStage::Double => JUMP_FORCE_DOUBLE as int,
        JumpStage::Triple => JUMP_FORCE_TRIPLE as int,
    }
}

impl JumpStage {
    /// The jump impulse magnitude of this stage.
    fn get_jump_force(&self) -> (r: i64)
        ensures
            r == spec_stage_force(*self),
    {
        match self {
            JumpStage::Single => JUMP_FORCE_SINGLE,
            JumpStage::Double => JUMP_FORCE_DOUBLE,
            JumpStage::Triple => JUMP_FORCE_TRIPLE,
        }
    }
}

/// The jump stage tracker: the current stage, and the landing window that
/// keeps the cadence alive while it runs.
#[derive(Clone, Copy, PartialEq, Eq, Structural, Debug)]
pub struct Jumper {
    pub stage: JumpStage,
    pub increase_timer: Countdown,
}

/// The tracker after `delta_us` of grounded time: the landing window
/// advances, and the moment it has lapsed the stage is forcibly reset to
/// `Single`.
pub open spec fn jumper_tick(j: Jumper, delta_us: u64) -> Jumper {
    let t = countdown_tick(j.increase_timer, delta_us);
    Jumper {
        stage: if t.spec_finished() {
            JumpStage::Single
        } else {
            j.stage
        },
        increase_timer: t,
    }
}

/// The tracker after a landing (an airborne-to-grounded edge).
///
/// A landing after the window has lapsed resets the cadence: the stage
/// becomes `Single` and a fresh window starts, so the next landing may
/// escalate.  A landing while the window still runs advances the stage one
/// level and restarts the window, except from `Triple`, which returns to
/// `Single` with the window stopped (the cadence cannot escalate further).
pub open spec fn jumper_land(j: Jumper) -> Jumper {
    if j.increase_timer.spec_finished() {
        Jumper {
            stage: JumpStage::Single,
            increase_timer: Countdown { elapsed_us: 0, duration_us: JUMP_WINDOW_US },
        }
    } else {
        match j.stage {
            JumpStage::Single => Jumper {
                stage: JumpStage::Double,
                increase_timer: Countdown { elapsed_us: 0, duration_us: JUMP_WINDOW_US },
            },
            JumpStage::Double => Jumper {
                stage: JumpStage::Triple,
                increase_timer: Countdown { elapsed_us: 0, duration_us: JUMP_WINDOW_US },
            },
            JumpStage::Triple => Jumper {
                stage: JumpStage::Single,
                increase_timer: Countdown { elapsed_us: 0, duration_us: 0 },
            },
        }
    }
}

impl Jumper {
    /// The landing window's countdown is well formed.
    pub open spec fn wf(self) -> bool {
        self.increase_timer.wf()
    }

    /// Advances the landing window; the moment it lapses the stage resets
    /// to `Single`.  Call only while the avatar is grounded.
    pub fn tick(&mut self, delta_us: u64)
        requires
            old(self).wf(),
        ensures
            *final(self) == jumper_tick(*old(self), delta_us),
            final(self).wf(),
    {
        self.increase_timer.tick(delta_us);
        if self.increase_timer.finished() {
            self.stage = JumpStage::Single;
        }
    }

    /// Records a landing, as [`jumper_land`] describes.  Call only on an
    /// airborne-to-grounded edge.
    pub fn land(&mut self)
        ensures
            *final(self) == jumper_land(*old(self)),
            final(self).wf(),
    {
        let lapsed: bool = self.increase_timer.finished();
        let (new_stage, new_timer): (JumpStage, Countdown) = if lapsed {
            (JumpStage::Single, Countdown::from_micros(JUMP_WINDOW_US))
        } else {
            match self.stage {
                JumpStage::Single => (JumpStage::Double, Countdown::from_micros(JUMP_WINDOW_US)),
                JumpStage::Double => (JumpStage::Triple, Countdown::from_micros(JUMP_WINDOW_US)),
                JumpStage::Triple => (JumpStage::Single, Countdown::elapsed()),
            }
        };
        self.stage = new_stage;
        self.increase_timer = new_timer;
    }

    /// The jump impulse magnitude of the current stage, in thousandths of a
    /// unit.
    pub fn get_force(&self) -> (r: i64)
        ensures
            r == spec_stage_force(self.stage),
    {
        self.stage.get_jump_force()
    }
}

impl Default for Jumper {
    /// A fresh tracker: stage `Single` with no landing window running.
    fn default() -> (r: Jumper)
        ensures
            r == (Jumper {
                stage: JumpStage::Single,
                increase_timer: Countdown { elapsed_us: 0, duration_us: 0 },
            }),
    {
        Jumper { stage: JumpStage::Single, increase_timer: Countdown { elapsed_us: 0, duration_us: 0 } }
    }
}

} // verus!
