//! The orientation estimate and its fusion rule.
//!
//! The estimate is a three-axis angle vector in millionths of a unit,
//! created once from accelerometer-derived angles after calibration
//! and then updated in place on every streaming step.  A step adds
//! the bias-corrected gyro rate (expressed per streaming period) and,
//! when the accelerometer divisor is non-zero, pulls the estimate
//! toward the accelerometer reading by one part in `accel_div`.  Each
//! axis saturates at `ANGLE_LIMIT`, so the estimate stays bounded for
//! bounded inputs.  The estimate serializes to a fixed-size telemetry
//! frame: each axis offset by `ANGLE_LIMIT` and sent as eight
//! little-endian bytes.

use vstd::prelude::*;
use vstd::bytes::{spec_u64_to_le_bytes, u64_to_le_bytes};
use vstd::math::abs;
use crate::vec3::{Vec3, div_tz, div_trunc, lemma_div_tz_range};
use vstd::arithmetic::mul::lemma_mul_inequality;

verus! {

/// Saturation bound of one estimate axis.
pub const ANGLE_LIMIT: i64 = 0x1000_0000_0000_0000;

/// Bytes in one telemetry frame (three axes of eight bytes).
pub const TELEMETRY_SIZE: usize = 24;

/// The orientation estimate together with the fusion rule's
/// accelerometer divisor (0 switches the correction off).
#[derive(Clone, Copy, Debug, PartialEq, Eq, Structural)]
pub struct Orientation {
    pub angles: Vec3,
    pub accel_div: u32,
}

/// Saturate one axis at the representational limit.
pub open spec fn clamp_axis(v: int) -> int {
    if v > ANGLE_LIMIT {
        ANGLE_LIMIT as int
    } else if v < -ANGLE_LIMIT {
        -ANGLE_LIMIT as int
    } else {
        v
    }
}

/// One axis of the fusion rule: integrate the per-period rate, then
/// move toward the accelerometer angle by one part in `d`.
pub open spec fn spec_fuse_axis(s: int, r: int, a: int, d: int) -> int {
    let g = s + r;
    if d >= 1 {
        clamp_axis(g + div_tz(a - g, d))
    } else {
        clamp_axis(g)
    }
}

/// The estimate after one fusion step.
pub open spec fn spec_adjust(o: Orientation, rate: Vec3, accel: Vec3) -> Orientation {
    Orientation {
        angles: Vec3 {
            x: spec_fuse_axis(o.angles.x as int, rate.x as int, accel.x as int, o.accel_div as int) as i64,
            y: spec_fuse_axis(o.angles.y as int, rate.y as int, accel.y as int, o.accel_div as int) as i64,
            z: spec_fuse_axis(o.angles.z as int, rate.z as int, accel.z as int, o.accel_div as int) as i64,
        },
        accel_div: o.accel_div,
    }
}

/// The estimate after `n` fusion steps with the same rate and
/// accelerometer reading.
pub open spec fn spec_iterate(o: Orientation, rate: Vec3, accel: Vec3, n: nat) -> Orientation
    decreases n,
{
    if n == 0 {
        o
    } else {
        spec_adjust(spec_iterate(o, rate, accel, (n - 1) as nat), rate, accel)
    }
}

/// An axis offset into the non-negative telemetry range.
pub open spec fn spec_encode_axis(v: int) -> u64 {
    (v + ANGLE_LIMIT) as u64
}

/// The telemetry frame: the three offset axes, little-endian.
pub open spec fn spec_frame(o: Orientation) -> Seq<u8> {
    spec_u64_to_le_bytes(spec_encode_axis(o.angles.x as int)) + spec_u64_to_le_bytes(
        spec_encode_axis(o.angles.y as int),
    ) + spec_u64_to_le_bytes(spec_encode_axis(o.angles.z as int))
}

/// The clamp is sound: a fused axis always lies within the limit.
pub proof fn lemma_fuse_axis_bounded(s: int, r: int, a: int, d: int)
    ensures
        -ANGLE_LIMIT <= spec_fuse_axis(s, r, a, d) <= ANGLE_LIMIT,
{
}

impl Orientation {
    /// All axes lie within the saturation limit.
    pub open spec fn wf(self) -> bool {
        self.angles.in_range(ANGLE_LIMIT as int)
    }

    /// The initial estimate: the accelerometer-derived angles read
    /// once after calibration, with the chosen accelerometer divisor.
    pub fn new(initial_angles: Vec3, accel_div: u32) -> (r: Orientation)
        requires
            initial_angles.in_range(ANGLE_LIMIT as int),
        ensures
            r == (Orientation { angles: initial_angles, accel_div }),
            r.wf(),
    {
        Orientation { angles: initial_angles, accel_div }
    }

    /// One in-place fusion step with a bias-corrected gyro rate and
    /// the current accelerometer angles.
    pub fn adjust(&mut self, rate: Vec3, accel: Vec3)
        requires
            old(self).wf(),
            rate.in_range(ANGLE_LIMIT as int),
            accel.in_range(ANGLE_LIMIT as int),
        ensures
            *final(self) == spec_adjust(*old(self), rate, accel),
            final(self).wf(),
    {
        let d: u32 = self.accel_div;
        self.angles = Vec3 {
            x: fuse_axis(self.angles.x, rate.x, accel.x, d),
            y: fuse_axis(self.angles.y, rate.y, accel.y, d),
            z: fuse_axis(self.angles.z, rate.z, accel.z, d),
        };
    }

    /// Serialize the estimate to its fixed-size telemetry frame.
    pub fn to_frame(&self) -> (r: Vec<u8>)
        requires
            self.wf(),
        ensures
            r@ == spec_frame(*self),
            r@.len() == TELEMETRY_SIZE,
    {
        let mut out: Vec<u8> = u64_to_le_bytes(encode_axis(self.angles.x));
        let mut tail_y: Vec<u8> = u64_to_le_bytes(encode_axis(self.angles.y));
        let mut tail_z: Vec<u8> = u64_to_le_bytes(encode_axis(self.angles.z));
        out.append(&mut tail_y);
        out.append(&mut tail_z);
        out
    }
}

/// Offset one axis into the non-negative telemetry range.
fn encode_axis(v: i64) -> (r: u64)
    requires
        -ANGLE_LIMIT <= v <= ANGLE_LIMIT,
    ensures
        r == spec_encode_axis(v as int),
{
    (v + ANGLE_LIMIT) as u64
}

/// One axis of the fusion step.
fn fuse_axis(s: i64, r: i64, a: i64, d: u32) -> (f: i64)
    requires
        -ANGLE_LIMIT <= s <= ANGLE_LIMIT,
        -ANGLE_LIMIT <= r <= ANGLE_LIMIT,
        -ANGLE_LIMIT <= a <= ANGLE_LIMIT,
    ensures
        f == spec_fuse_axis(s as int, r as int, a as int, d as int),
        -ANGLE_LIMIT <= f <= ANGLE_LIMIT,
{
    let g: i64 = s + r;
    let fused: i64 = if d >= 1 {
        let diff: i64 = a - g;
        proof {
            lemma_div_tz_in_self_range(diff as int, d as int);
        }
        g + div_trunc(diff, d as i64)
    } else {
        g
    };
    if fused > ANGLE_LIMIT {
        ANGLE_LIMIT
    } else if fused < -ANGLE_LIMIT {
        -ANGLE_LIMIT
    } else {
        fused
    }
}

/// A truncating quotient never exceeds the dividend in magnitude.
proof fn lemma_div_tz_in_self_range(v: int, d: int)
    requires
        d >= 1,
    ensures
        -abs(v) <= div_tz(v, d) <= abs(v),
{
    lemma_mul_inequality(1, d, abs(v) as int);
    lemma_div_tz_range(v, d, abs(v) as int);
}

/// Closed-form integration: with the accelerometer correction off, a
/// constant bias-corrected rate integrated over `m` streaming steps
/// advances each axis by exactly `m` times the per-period rate,
/// whatever the accelerometer reads — provided the trajectory stays
/// within the saturation limit.
pub proof fn lemma_constant_rate_integration(o: Orientation, rate: Vec3, accel: Vec3, m: nat)
    requires
        o.accel_div == 0,
        o.wf(),
        abs(o.angles.x as int) + m * abs(rate.x as int) <= ANGLE_LIMIT,
        abs(o.angles.y as int) + m * abs(rate.y as int) <= ANGLE_LIMIT,
        abs(o.angles.z as int) + m * abs(rate.z as int) <= ANGLE_LIMIT,
    ensures
        spec_iterate(o, rate, accel, m).angles.x == o.angles.x + m * rate.x,
        spec_iterate(o, rate, accel, m).angles.y == o.angles.y + m * rate.y,
        spec_iterate(o, rate, accel, m).angles.z == o.angles.z + m * rate.z,
        spec_iterate(o, rate, accel, m).accel_div == 0,
    decreases m,
{
    if m == 0 {
    } else {
        let k = (m - 1) as nat;
        assert(k * abs(rate.x as int) <= m * abs(rate.x as int)) by {
            lemma_mul_inequality(k as int, m as int, abs(rate.x as int) as int);
        }
        assert(k * abs(rate.y as int) <= m * abs(rate.y as int)) by {
            lemma_mul_inequality(k as int, m as int, abs(rate.y as int) as int);
        }
        assert(k * abs(rate.z as int) <= m * abs(rate.z as int)) by {
            lemma_mul_inequality(k as int, m as int, abs(rate.z as int) as int);
        }
        lemma_constant_rate_integration(o, rate, accel, k);
        let prev = spec_iterate(o, rate, accel, k);
        assert(spec_iterate(o, rate, accel, m) == spec_adjust(prev, rate, accel));
        lemma_axis_step(o.angles.x as int, rate.x as int, m);
        lemma_axis_step(o.angles.y as int, rate.y as int, m);
        lemma_axis_step(o.angles.z as int, rate.z as int, m);
    }
}

/// One induction step of the integration law on a single axis: the
/// clamp is the identity as long as the trajectory stays in range.
proof fn lemma_axis_step(s0: int, r: int, m: nat)
    requires
        m >= 1,
        abs(s0) + m * abs(r) <= ANGLE_LIMIT,
        -ANGLE_LIMIT <= s0 <= ANGLE_LIMIT,
    ensures
        clamp_axis(s0 + (m - 1) * r + r) == s0 + m * r,
{
    assert((m - 1) * r + r == m * r) by (nonlinear_arith);
    assert(-(m * abs(r)) <= m * r <= m * abs(r)) by (nonlinear_arith)
        requires
            -abs(r) <= r <= abs(r),
            m >= 0,
    ;
}

} // verus!
