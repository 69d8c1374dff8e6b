//! Three-axis fixed-point vectors.
//!
//! Gyro rates, accelerometer angles and orientation estimates are all
//! carried as three `i64` axes in millionths of a unit.  The sensor
//! fusion and calibration arithmetic needs differences, a halving
//! blend and a scaled correction; everything is bounded so that no
//! operation overflows, and all divisions truncate toward zero as the
//! hardware's integer division does.

use vstd::prelude::*;
use vstd::arithmetic::div_mod::{
    lemma_div_pos_is_pos,
    lemma_div_is_ordered,
    lemma_div_multiples_vanish,
};

verus! {

/// A three-axis fixed-point value (millionths of a unit per axis).
#[derive(Clone, Copy, Debug, PartialEq, Eq, Structural)]
pub struct Vec3 {
    pub x: i64,
    pub y: i64,
    pub z: i64,
}

/// Truncating division: rounds toward zero on either sign, as the
/// hardware's integer division does.
pub open spec fn div_tz(v: int, d: int) -> int
    recommends
        d >= 1,
{
    if v >= 0 {
        v / d
    } else {
        -((-v) / d)
    }
}

/// Truncating division keeps a quotient within `bound` whenever the
/// dividend is within `d * bound`.
pub proof fn lemma_div_tz_range(v: int, d: int, bound: int)
    requires
        d >= 1,
        bound >= 0,
        -(d * bound) <= v <= d * bound,
    ensures
        -bound <= div_tz(v, d) <= bound,
{
    if v >= 0 {
        lemma_div_pos_is_pos(v, d);
        lemma_div_is_ordered(v, d * bound, d);
        lemma_div_multiples_vanish(bound, d);
    } else {
        lemma_div_pos_is_pos(-v, d);
        lemma_div_is_ordered(-v, d * bound, d);
        lemma_div_multiples_vanish(bound, d);
    }
}

/// Divide one axis value, rounding toward zero.
pub fn div_trunc(v: i64, d: i64) -> (r: i64)
    requires
        d >= 1,
        i64::MIN < v,
    ensures
        r == div_tz(v as int, d as int),
{
    if v >= 0 {
        v / d
    } else {
        -((-v) / d)
    }
}

impl Vec3 {
    /// Every axis lies within `bound` in magnitude.
    pub open spec fn in_range(self, bound: int) -> bool {
        &&& -bound <= self.x <= bound
        &&& -bound <= self.y <= bound
        &&& -bound <= self.z <= bound
    }

    /// The axis-wise blend `(self + other) / 2` used by calibration.
    pub open spec fn spec_blend(self, other: Vec3) -> Vec3 {
        Vec3 {
            x: div_tz(self.x + other.x, 2) as i64,
            y: div_tz(self.y + other.y, 2) as i64,
            z: div_tz(self.z + other.z, 2) as i64,
        }
    }

    /// Axis-wise difference, as in bias-correcting a raw gyro rate.
    pub open spec fn spec_sub(self, other: Vec3) -> Vec3 {
        Vec3 {
            x: (self.x - other.x) as i64,
            y: (self.y - other.y) as i64,
            z: (self.z - other.z) as i64,
        }
    }

    pub fn new(x: i64, y: i64, z: i64) -> (r: Vec3)
        ensures
            r == (Vec3 { x, y, z }),
    {
        Vec3 { x, y, z }
    }

    /// Axis-wise midpoint, truncated toward zero.  The result stays
    /// within any bound that holds for both operands.
    pub fn blend(self, other: Vec3) -> (r: Vec3)
        requires
            self.in_range(0x3fff_ffff_ffff_ffff),
            other.in_range(0x3fff_ffff_ffff_ffff),
        ensures
            r == self.spec_blend(other),
    {
        Vec3 {
            x: div_trunc(self.x + other.x, 2),
            y: div_trunc(self.y + other.y, 2),
            z: div_trunc(self.z + other.z, 2),
        }
    }

    /// Axis-wise difference.
    pub fn sub_axes(self, other: Vec3) -> (r: Vec3)
        requires
            self.in_range(0x3fff_ffff_ffff_ffff),
            other.in_range(0x3fff_ffff_ffff_ffff),
        ensures
            r == self.spec_sub(other),
    {
        Vec3 { x: self.x - other.x, y: self.y - other.y, z: self.z - other.z }
    }
}

/// The blend of two vectors within `bound` stays within `bound`.
pub proof fn lemma_blend_in_range(a: Vec3, b: Vec3, bound: int)
    requires
        0 <= bound,
        a.in_range(bound),
        b.in_range(bound),
    ensures
        a.spec_blend(b).in_range(bound),
{
    lemma_div_tz_range(a.x + b.x, 2, bound);
    lemma_div_tz_range(a.y + b.y, 2, bound);
    lemma_div_tz_range(a.z + b.z, 2, bound);
}

} // verus!
