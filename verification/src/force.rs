//! A single named force: a vector contribution with an optional expiration
//! countdown and a decay policy.
//!
//! An `Automatic` force is dropped by the ledger sweep as soon as it
//! finishes.  A `Manual` force survives the sweep until its removal has been
//! explicitly requested *and* its countdown has finished; a `Manual` force
//! without a countdown counts as finished, so an explicit removal takes
//! effect at once.

use crate::countdown::Countdown;
use crate::countdown::countdown_tick;
use crate::vec3::COMPONENT_CAP;
use crate::vec3::Vec3;
use vstd::prelude::*;

verus! {

/// How a ledger entry may leave the ledger.
#[derive(Clone, Copy, PartialEq, Eq, Structural, Debug)]
pub enum ForceDecayType {
    /// Swept silently once its countdown finishes.
    Automatic,
    /// Swept only when finished and explicitly scheduled for removal.
    Manual,
}

/// The closed set of force identifiers the ledger is keyed on.
#[derive(Clone, Copy, PartialEq, Eq, Structural, Debug)]
pub enum ForceId {
    Gravity,
    Run,
    Jump,
    Wind,
    Slide,
    Skid,
    Drift,
    Slope,
}

/// A force vector with an optional expiration countdown and a decay policy.
#[derive(Clone, Copy, PartialEq, Eq, Structural, Debug)]
pub struct Force {
    pub applied_force: Vec3,
    pub expiration_timer: Option<Countdown>,
    pub decay_type: ForceDecayType,
}

/// The force after `delta_us` microseconds: its countdown advances, its
/// vector and policy are untouched.
pub open spec fn force_tick(f: Force, delta_us: u64) -> Force {
    match f.expiration_timer {
        Some(t) => Force { expiration_timer: Some(countdown_tick(t, delta_us)), ..f },
        None => f,
    }
}

impl Force {
    /// Any countdown present is well formed and the vector is in bounds.
    pub open spec fn wf(self) -> bool {
        &&& match self.expiration_timer {
            Some(t) => t.wf(),
            None => true,
        }
        &&& self.applied_force.bounded(COMPONENT_CAP as int)
    }

    /// The force's countdown has finished; a force without a countdown
    /// counts as finished.
    pub open spec fn spec_finished(self) -> bool {
        match self.expiration_timer {
            Some(t) => t.spec_finished(),
            None => true,
        }
    }

    /// A force with the given vector, an optional lifespan in microseconds,
    /// and a decay policy.
    pub fn new(applied_force: Vec3, lifespan_us: Option<u64>, decay_type: ForceDecayType) -> (r:
        Force)
        ensures
            r.applied_force == applied_force,
            r.decay_type == decay_type,
            r.expiration_timer == match lifespan_us {
                Some(d) => Some(Countdown { elapsed_us: 0, duration_us: d }),
                None => None::<Countdown>,
            },
    {
        let expiration_timer: Option<Countdown> = match lifespan_us {
            Some(total_lifetime) => Some(Countdown::from_micros(total_lifetime)),
            None => None,
        };
        Force { applied_force, expiration_timer, decay_type }
    }

    /// Advances the expiration countdown, if there is one.
    pub fn tick(&mut self, delta_us: u64)
        requires
            old(self).wf(),
        ensures
            *final(self) == force_tick(*old(self), delta_us),
            final(self).wf(),
    {
        if let Some(timer) = self.expiration_timer.as_mut() {
            timer.tick(delta_us);
        }
    }

    /// True iff the countdown has finished; a force without a countdown
    /// counts as finished.
    pub fn finished(&self) -> (r: bool)
        ensures
            r == self.spec_finished(),
    {
        if let Some(timer) = &self.expiration_timer {
            timer.finished()
        } else {
            true
        }
    }

    /// Adds `force` onto the stored vector in place.
    pub fn add_force(&mut self, force: Vec3)
        requires
            i64::MIN <= old(self).applied_force.x + force.x <= i64::MAX,
            i64::MIN <= old(self).applied_force.y + force.y <= i64::MAX,
            i64::MIN <= old(self).applied_force.z + force.z <= i64::MAX,
        ensures
            final(self).applied_force.x == old(self).applied_force.x + force.x,
            final(self).applied_force.y == old(self).applied_force.y + force.y,
            final(self).applied_force.z == old(self).applied_force.z + force.z,
            final(self).expiration_timer == old(self).expiration_timer,
            final(self).decay_type == old(self).decay_type,
    {
        self.applied_force = self.applied_force.add(force);
    }

    /// Extends the countdown so that the remaining time grows by
    /// `extra_us`; a force without a countdown is unchanged.
    pub fn add_time(&mut self, extra_us: u64)
        requires
            old(self).wf(),
            old(self).expiration_timer matches Some(t) ==> t.spec_remaining() + extra_us
                <= u64::MAX,
        ensures
            final(self).applied_force == old(self).applied_force,
            final(self).decay_type == old(self).decay_type,
            final(self).expiration_timer == match old(self).expiration_timer {
                Some(t) => Some(
                    Countdown {
                        elapsed_us: 0,
                        duration_us: (t.spec_remaining() + extra_us) as u64,
                    },
                ),
                None => None::<Countdown>,
            },
            final(self).wf(),
    {
        if let Some(timer) = &self.expiration_timer {
            let remaining: u64 = timer.remaining_micros();
            self.expiration_timer = Some(Countdown::from_micros(remaining + extra_us));
        }
    }
}

} // verus!
