//! The ground sensor: a two-state grounded signal plus the last observed
//! contact-surface angle.
//!
//! The state is fully overwritten each tick from the proximity probe's
//! result; the pipeline guards the transition to `Grounded` so that it never
//! holds while vertical momentum is strictly positive.

use vstd::prelude::*;

verus! {

/// Largest surface angle the sensor stores, in thousandths of a degree.
pub const MAX_SURFACE_ANGLE_MDEG: i64 = 180_000;

/// The avatar's contact state with standable geometry.
#[derive(Clone, Copy, PartialEq, Eq, Structural, Debug)]
pub enum GroundedState {
    Grounded,
    Airborne,
}

/// The ground sensor: the grounded state and the contact-surface angle in
/// thousandths of a degree from horizontal (0 = flat ground).
#[derive(Clone, Copy, PartialEq, Eq, Structural, Debug)]
pub struct GroundSensor {
    pub state: GroundedState,
    pub surface_angle_mdeg: i64,
}

impl GroundSensor {
    /// The stored angle is a plausible surface angle.
    pub open spec fn wf(self) -> bool {
        0 <= self.surface_angle_mdeg <= MAX_SURFACE_ANGLE_MDEG
    }

    /// True iff the sensor currently reports contact with the ground.
    pub fn grounded(&self) -> (r: bool)
        ensures
            r == (self.state is Grounded),
    {
        matches!(self.state, GroundedState::Grounded)
    }

    /// Overwrites the grounded state.
    pub fn set_state(&mut self, state: GroundedState)
        ensures
            *final(self) == (GroundSensor { state, ..*old(self) }),
    {
        self.state = state;
    }

    /// The last observed contact-surface angle, in thousandths of a degree
    /// from horizontal.
    pub fn get_surface_angle(&self) -> (r: i64)
        ensures
            r == self.surface_angle_mdeg,
    {
        self.surface_angle_mdeg
    }

    /// Overwrites the contact-surface angle.
    pub fn set_surface_angle(&mut self, angle_mdeg: i64)
        requires
            0 <= angle_mdeg <= MAX_SURFACE_ANGLE_MDEG,
        ensures
            *final(self) == (GroundSensor { surface_angle_mdeg: angle_mdeg, ..*old(self) }),
            final(self).wf(),
    {
        self.surface_angle_mdeg = angle_mdeg;
    }
}

impl Default for GroundSensor {
    /// A sensor reporting flat ground contact, as at spawn.
    fn default() -> (r: GroundSensor)
        ensures
            r == (GroundSensor { state: GroundedState::Grounded, surface_angle_mdeg: 0 }),
            r.wf(),
    {
        GroundSensor { state: GroundedState::Grounded, surface_angle_mdeg: 0 }
    }
}

} // verus!
