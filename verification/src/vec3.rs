//! Fixed-point 3D vectors.
//!
//! Components are signed integers counting thousandths of a world unit, so
//! `1000` stands for one unit.  Every vector the locomotion core stores is
//! kept within [`COMPONENT_CAP`] per component; the cap leaves ample headroom
//! for the per-tick sums the pipeline performs.

use vstd::prelude::*;

verus! {

/// Fixed-point scale: this many counts make one world unit.
pub const MILLI: i64 = 1000;

/// Largest magnitude a stored vector component may reach.
pub const COMPONENT_CAP: i64 = 1_000_000_000_000;

/// Largest component magnitude for which a squared length is computed; it
/// covers any sum of all the ledger's entries.
pub const LENGTH_CAP: i64 = 10_000_000_000_000;

/// A 3D vector with fixed-point components (thousandths of a unit).
#[derive(Clone, Copy, PartialEq, Eq, Structural, Debug)]
pub struct Vec3 {
    pub x: i64,
    pub y: i64,
    pub z: i64,
}

/// `v` scaled by `num / den`, rounding toward zero.
///
/// This is the mathematical meaning of every fractional scaling the core
/// performs (run speed, skid damping, drift accumulation, momentum decay).
pub open spec fn scale_trunc(v: int, num: int, den: int) -> int {
    if v >= 0 {
        (v * num) / den
    } else {
        -((-v * num) / den)
    }
}

/// Component-wise sum, as the fixed-width components store it; exact
/// whenever the true sums fit in the component type.
pub open spec fn vec_add(a: Vec3, b: Vec3) -> Vec3 {
    Vec3 { x: (a.x + b.x) as i64, y: (a.y + b.y) as i64, z: (a.z + b.z) as i64 }
}

impl Vec3 {
    /// Every component has magnitude at most `cap`.
    pub open spec fn bounded(self, cap: int) -> bool {
        &&& -cap <= self.x <= cap
        &&& -cap <= self.y <= cap
        &&& -cap <= self.z <= cap
    }

    /// The all-zero vector.
    pub fn zero() -> (r: Vec3)
        ensures
            r == (Vec3 { x: 0, y: 0, z: 0 }),
    {
        Vec3 { x: 0, y: 0, z: 0 }
    }

    /// Builds a vector from its components.
    pub fn new(x: i64, y: i64, z: i64) -> (r: Vec3)
        ensures
            r == (Vec3 { x, y, z }),
    {
        Vec3 { x, y, z }
    }

    /// Component-wise sum.
    pub fn add(self, other: Vec3) -> (r: Vec3)
        requires
            i64::MIN <= self.x + other.x <= i64::MAX,
            i64::MIN <= self.y + other.y <= i64::MAX,
            i64::MIN <= self.z + other.z <= i64::MAX,
        ensures
            r.x == self.x + other.x,
            r.y == self.y + other.y,
            r.z == self.z + other.z,
    {
        Vec3 { x: self.x + other.x, y: self.y + other.y, z: self.z + other.z }
    }

    /// The vector with the vertical component zeroed.
    pub fn flat(self) -> (r: Vec3)
        ensures
            r == (Vec3 { x: self.x, y: 0, z: self.z }),
    {
        Vec3 { x: self.x, y: 0, z: self.z }
    }

    /// True iff some component is non-zero.
    pub fn is_any(self) -> (r: bool)
        ensures
            r == !(self.x == 0 && self.y == 0 && self.z == 0),
    {
        self.x != 0 || self.y != 0 || self.z != 0
    }

    /// Squared length, in squared thousandths.
    pub fn length_squared(self) -> (r: i128)
        requires
            self.bounded(LENGTH_CAP as int),
        ensures
            r == self.x * self.x + self.y * self.y + self.z * self.z,
    {
        let x: i128 = self.x as i128;
        let y: i128 = self.y as i128;
        let z: i128 = self.z as i128;
        proof {
            lemma_square_cap(x as int);
            lemma_square_cap(y as int);
            lemma_square_cap(z as int);
        }
        x * x + y * y + z * z
    }

    /// Each component scaled by `num / den`, rounding toward zero.
    pub fn scaled(self, num: i64, den: i64) -> (r: Vec3)
        requires
            0 <= num,
            0 < den,
            -(i64::MAX as int) <= self.x * num <= i64::MAX as int,
            -(i64::MAX as int) <= self.y * num <= i64::MAX as int,
            -(i64::MAX as int) <= self.z * num <= i64::MAX as int,
        ensures
            r.x == scale_trunc(self.x as int, num as int, den as int),
            r.y == scale_trunc(self.y as int, num as int, den as int),
            r.z == scale_trunc(self.z as int, num as int, den as int),
    {
        Vec3 {
            x: scale_component(self.x, num, den),
            y: scale_component(self.y, num, den),
            z: scale_component(self.z, num, den),
        }
    }
}

/// A component within the cap has a square of at most the cap's square.
proof fn lemma_square_cap(v: int) by (nonlinear_arith)
    requires
        -LENGTH_CAP <= v <= LENGTH_CAP,
    ensures
        0 <= v * v <= LENGTH_CAP * LENGTH_CAP,
{
}

/// One component scaled by `num / den`, rounding toward zero.
///
/// Signed division is carried out on magnitudes so that the rounding
/// direction is explicit.
fn scale_component(v: i64, num: i64, den: i64) -> (r: i64)
    requires
        0 <= num,
        0 < den,
        -(i64::MAX as int) <= v * num <= i64::MAX as int,
    ensures
        r == scale_trunc(v as int, num as int, den as int),
{
    let mag: u64 = if v >= 0 {
        v as u64
    } else if v == i64::MIN {
        i64::MAX as u64 + 1
    } else {
        (-v) as u64
    };
    proof {
        assert(mag == (if v >= 0 { v as int } else { -(v as int) }));
        assert(mag * num == (if v >= 0 { v * num } else { -(v * num) })) by (nonlinear_arith)
            requires
                mag == (if v >= 0 { v as int } else { -(v as int) }),
                num >= 0,
        ;
    }
    let scaled: u64 = (mag * (num as u64)) / (den as u64);
    proof {
        assert(scaled <= mag * num) by (nonlinear_arith)
            requires
                scaled == (mag as int * num as int) / (den as int),
                den >= 1,
                mag >= 0,
                num >= 0,
        ;
    }
    if v >= 0 {
        scaled as i64
    } else {
        -(scaled as i64)
    }
}

/// Bounds a product from bounds on its factors.
pub proof fn lemma_mul_bounds(v: int, num: int, vcap: int, ncap: int) by (nonlinear_arith)
    requires
        -vcap <= v <= vcap,
        0 <= num <= ncap,
    ensures
        -(vcap * ncap) <= v * num <= vcap * ncap,
{
}

/// Bounds a scaled component from a bound on the component.
pub proof fn lemma_scale_trunc_bound(v: int, num: int, den: int, cap: int) by (nonlinear_arith)
    requires
        -cap <= v <= cap,
        0 <= num,
        1 <= den,
    ensures
        -((cap * num) / den) <= scale_trunc(v, num, den) <= (cap * num) / den,
{
}

} // verus!
