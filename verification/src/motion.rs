//! Momentum, movement direction and the gravity configuration.
//!
//! Momentum is the avatar's per-tick displacement intent: overwritten each
//! tick from the combined force, never accumulated across ticks except
//! through the optional decay toward zero.

use crate::vec3::COMPONENT_CAP;
use crate::vec3::LENGTH_CAP;
use crate::vec3::Vec3;
use crate::vec3::lemma_mul_bounds;
use crate::vec3::scale_trunc;
use vstd::prelude::*;

verus! {

/// Squared activity threshold: a vector whose squared length (in squared
/// thousandths) reaches this counts as an active input or momentum, the
/// fixed-point form of a 0.3-unit dead zone.
pub const ACTIVE_THRESHOLD_SQUARED: i128 = 90_000;

/// The vector's squared length reaches the activity dead zone.
pub open spec fn vec_active(v: Vec3) -> bool {
    v.x * v.x + v.y * v.y + v.z * v.z >= ACTIVE_THRESHOLD_SQUARED as int
}

/// The constant downward pull, accumulated every airborne tick.
#[derive(Clone, Copy, PartialEq, Eq, Structural, Debug)]
pub struct Gravity {
    pub force: Vec3,
}

impl Gravity {
    /// A gravity of `amount` thousandths of a unit per tick, pointing
    /// straight down.
    pub fn new(amount: i64) -> (r: Gravity)
        requires
            0 <= amount <= 1_000_000,
        ensures
            r.force == (Vec3 { x: 0, y: (0 - amount) as i64, z: 0 }),
    {
        Gravity { force: Vec3 { x: 0, y: 0 - amount, z: 0 } }
    }

    /// The per-tick gravity vector.
    pub fn force(&self) -> (r: Vec3)
        ensures
            r == self.force,
    {
        self.force
    }
}

/// The avatar's per-tick displacement intent.
#[derive(Clone, Copy, PartialEq, Eq, Structural, Debug)]
pub struct Momentum(pub Vec3);

impl Momentum {
    /// The momentum vector is within the cap that any combined force
    /// satisfies.
    pub open spec fn wf(self) -> bool {
        self.0.bounded(LENGTH_CAP as int)
    }

    /// The momentum vector.
    pub fn get(&self) -> (r: Vec3)
        ensures
            r == self.0,
    {
        self.0
    }

    /// The momentum vector with its vertical component zeroed.
    pub fn get_flat(&self) -> (r: Vec3)
        ensures
            r == (Vec3 { x: self.0.x, y: 0, z: self.0.z }),
    {
        self.0.flat()
    }

    /// The vertical component of the momentum.
    pub fn y(&self) -> (r: i64)
        ensures
            r == self.0.y,
    {
        self.0.y
    }

    /// Overwrites the momentum.
    pub fn set(&mut self, value: Vec3)
        ensures
            final(self).0 == value,
    {
        self.0 = value;
    }

    /// Adds `value` onto the momentum.
    pub fn add(&mut self, value: Vec3)
        requires
            i64::MIN <= old(self).0.x + value.x <= i64::MAX,
            i64::MIN <= old(self).0.y + value.y <= i64::MAX,
            i64::MIN <= old(self).0.z + value.z <= i64::MAX,
        ensures
            final(self).0.x == old(self).0.x + value.x,
            final(self).0.y == old(self).0.y + value.y,
            final(self).0.z == old(self).0.z + value.z,
    {
        self.0 = self.0.add(value);
    }

    /// True iff the momentum is non-zero.
    pub fn is_any(&self) -> (r: bool)
        ensures
            r == !(self.0.x == 0 && self.0.y == 0 && self.0.z == 0),
    {
        self.0.is_any()
    }

    /// True iff the momentum's length reaches the activity dead zone.
    pub fn is_active(&self) -> (r: bool)
        requires
            self.wf(),
        ensures
            r == (self.0.x * self.0.x + self.0.y * self.0.y + self.0.z * self.0.z
                >= ACTIVE_THRESHOLD_SQUARED),
    {
        self.0.length_squared() >= ACTIVE_THRESHOLD_SQUARED
    }

    /// Zeroes the vertical component.
    pub fn clear_vertical(&mut self)
        ensures
            final(self).0 == (Vec3 { x: old(self).0.x, y: 0, z: old(self).0.z }),
    {
        self.0 = Vec3 { x: self.0.x, y: 0, z: self.0.z };
    }

    /// Zeroes the horizontal components.
    pub fn clear_horizontal(&mut self)
        ensures
            final(self).0 == (Vec3 { x: 0, y: old(self).0.y, z: 0 }),
    {
        self.0 = Vec3 { x: 0, y: self.0.y, z: 0 };
    }

    /// Zeroes the momentum.
    pub fn reset(&mut self)
        ensures
            final(self).0 == (Vec3 { x: 0, y: 0, z: 0 }),
    {
        self.0 = Vec3::zero();
    }

    /// Moves the momentum a fraction of the way toward zero:
    /// `factor_milli` of 1000 means all the way, 0 means not at all.
    pub fn decay(&mut self, factor_milli: i64)
        requires
            0 <= factor_milli <= 1000,
            old(self).wf(),
        ensures
            final(self).0.x == scale_trunc(old(self).0.x as int, 1000 - factor_milli, 1000),
            final(self).0.y == scale_trunc(old(self).0.y as int, 1000 - factor_milli, 1000),
            final(self).0.z == scale_trunc(old(self).0.z as int, 1000 - factor_milli, 1000),
    {
        proof {
            lemma_mul_bounds(self.0.x as int, 1000 - factor_milli, LENGTH_CAP as int, 1000);
            lemma_mul_bounds(self.0.y as int, 1000 - factor_milli, LENGTH_CAP as int, 1000);
            lemma_mul_bounds(self.0.z as int, 1000 - factor_milli, LENGTH_CAP as int, 1000);
        }
        self.0 = self.0.scaled(1000 - factor_milli, 1000);
    }
}

impl Default for Momentum {
    /// Zero momentum.
    fn default() -> (r: Momentum)
        ensures
            r.0 == (Vec3 { x: 0, y: 0, z: 0 }),
    {
        Momentum(Vec3 { x: 0, y: 0, z: 0 })
    }
}

/// The desired camera-relative movement direction resolved from input.
#[derive(Clone, Copy, PartialEq, Eq, Structural, Debug)]
pub struct MoveDirection(pub Vec3);

impl MoveDirection {
    /// The direction vector is within the component cap.
    pub open spec fn wf(self) -> bool {
        self.0.bounded(COMPONENT_CAP as int)
    }

    /// The direction vector.
    pub fn get(&self) -> (r: Vec3)
        ensures
            r == self.0,
    {
        self.0
    }

    /// Overwrites the direction.
    pub fn set(&mut self, value: Vec3)
        ensures
            final(self).0 == value,
    {
        self.0 = value;
    }

    /// Zeroes the direction.
    pub fn reset(&mut self)
        ensures
            final(self).0 == (Vec3 { x: 0, y: 0, z: 0 }),
    {
        self.0 = Vec3::zero();
    }

    /// True iff the direction is non-zero.
    pub fn is_any(&self) -> (r: bool)
        ensures
            r == !(self.0.x == 0 && self.0.y == 0 && self.0.z == 0),
    {
        self.0.is_any()
    }

    /// True iff the direction's length reaches the activity dead zone.
    pub fn is_active(&self) -> (r: bool)
        requires
            self.wf(),
        ensures
            r == (self.0.x * self.0.x + self.0.y * self.0.y + self.0.z * self.0.z
                >= ACTIVE_THRESHOLD_SQUARED),
    {
        self.0.length_squared() >= ACTIVE_THRESHOLD_SQUARED
    }
}

impl Default for MoveDirection {
    /// No desired direction.
    fn default() -> (r: MoveDirection)
        ensures
            r.0 == (Vec3 { x: 0, y: 0, z: 0 }),
    {
        MoveDirection(Vec3 { x: 0, y: 0, z: 0 })
    }
}

} // verus!
