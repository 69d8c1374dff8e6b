//! Command-frame codec, command interpreter and motor output governor.
//!
//! A command frame is `COMMAND_SIZE` bytes on the wire: one enable
//! byte followed by the throttle as a little-endian 32-bit count of
//! millionths (so `1_000_000` is full throttle).  Decoding is pure;
//! applying a decoded command drives the enable line unconditionally
//! and recomputes the motor duty only when the throttle is in range,
//! leaving the previous duty untouched otherwise.

use vstd::prelude::*;
use vstd::arithmetic::div_mod::{lemma_multiply_divide_lt, lemma_div_is_ordered};
use vstd::arithmetic::mul::lemma_mul_inequality;

verus! {

/// Number of bytes in one command frame.
pub const COMMAND_SIZE: usize = 5;

/// End-of-transmission marker sent after each telemetry frame.
pub const EOT: u8 = 4;

/// Fixed-point scale: a throttle of `THROTTLE_SCALE` means 1.0.
pub const THROTTLE_SCALE: i64 = 1_000_000;

/// A decoded command: enable flag plus throttle in millionths.
#[derive(Clone, Copy, Debug, PartialEq, Eq, Structural)]
pub struct Command {
    pub enable: bool,
    pub throttle: i64,
}

/// Motor governor state: the boolean enable line and the last duty
/// value written to the PWM channel.
#[derive(Clone, Copy, Debug, PartialEq, Eq, Structural)]
pub struct MotorState {
    pub enabled: bool,
    pub duty: u16,
}

/// The throttle field as assembled from its four little-endian bytes.
pub open spec fn throttle_raw(b0: u8, b1: u8, b2: u8, b3: u8) -> int {
    b0 + 256 * b1 + 65536 * b2 + 16777216 * b3
}

/// What a full-length frame decodes to: byte 0 is the enable flag
/// (any non-zero value arms the motor), bytes 1..5 the throttle.
pub open spec fn spec_decode(frame: Seq<u8>) -> Command
    recommends
        frame.len() == COMMAND_SIZE,
{
    Command {
        enable: frame[0] != 0,
        throttle: throttle_raw(frame[1], frame[2], frame[3], frame[4]) as i64,
    }
}

/// A throttle is applied only when it lies in `[0, THROTTLE_SCALE]`.
pub open spec fn valid_throttle(t: int) -> bool {
    0 <= t <= THROTTLE_SCALE
}

/// Duty for a valid throttle: `max_duty * t / THROTTLE_SCALE`,
/// rounded to the nearest integer (halves round up).
pub open spec fn spec_duty(max_duty: u16, t: int) -> int {
    (max_duty * t + 500_000) / 1_000_000
}

/// The motor state after one decoded command is applied.
pub open spec fn spec_apply(m: MotorState, c: Command, max_duty: u16) -> MotorState {
    MotorState {
        enabled: c.enable,
        duty: if valid_throttle(c.throttle as int) {
            spec_duty(max_duty, c.throttle as int) as u16
        } else {
            m.duty
        },
    }
}

/// The rounded duty never exceeds the PWM period's maximum.
pub proof fn lemma_duty_bounded(max_duty: u16, t: int)
    requires
        valid_throttle(t),
    ensures
        0 <= spec_duty(max_duty, t) <= max_duty,
{
    lemma_mul_inequality(t, 1_000_000, max_duty as int);
    assert(max_duty * t == t * max_duty) by (nonlinear_arith);
    assert(1_000_000 * max_duty == max_duty * 1_000_000) by (nonlinear_arith);
    assert(max_duty * t + 500_000 < (max_duty + 1) * 1_000_000) by (nonlinear_arith)
        requires
            max_duty * t <= max_duty * 1_000_000,
    ;
    lemma_multiply_divide_lt(max_duty * t + 500_000, max_duty + 1, 1_000_000);
    lemma_div_is_ordered(0, max_duty * t + 500_000, 1_000_000);
}

/// Decode one received frame.  A frame of any length other than
/// `COMMAND_SIZE` is rejected; a full-length frame always decodes.
pub fn decode_command(frame: &[u8]) -> (r: Option<Command>)
    ensures
        frame@.len() == COMMAND_SIZE ==> r == Some(spec_decode(frame@)),
        frame@.len() != COMMAND_SIZE ==> r is None,
{
    if frame.len() != COMMAND_SIZE {
        return None;
    }
    let enable: bool = frame[0] != 0;
    let raw: u32 = (frame[1] as u32) + 256 * (frame[2] as u32) + 65536 * (frame[3] as u32)
        + 16777216 * (frame[4] as u32);
    Some(Command { enable, throttle: raw as i64 })
}

impl MotorState {
    /// Boot state: motor disabled (the safety default) and zero duty.
    pub fn boot() -> (r: MotorState)
        ensures
            !r.enabled,
            r.duty == 0,
    {
        MotorState { enabled: false, duty: 0 }
    }

    /// Apply one decoded command: the enable line always follows the
    /// command's flag; the duty is recomputed only for a throttle in
    /// `[0, THROTTLE_SCALE]` and otherwise keeps its previous value.
    pub fn apply_command(&mut self, c: Command, max_duty: u16)
        ensures
            *final(self) == spec_apply(*old(self), c, max_duty),
    {
        self.enabled = c.enable;
        if 0 <= c.throttle && c.throttle <= THROTTLE_SCALE {
            assert(max_duty * c.throttle <= 65535 * 1_000_000) by (nonlinear_arith)
                requires
                    0 <= c.throttle <= 1_000_000,
                    max_duty <= 65535,
            ;
            let prod: u64 = (max_duty as u64) * (c.throttle as u64);
            proof {
                lemma_duty_bounded(max_duty, c.throttle as int);
            }
            let duty: u64 = (prod + 500_000) / 1_000_000;
            self.duty = duty as u16;
        }
    }
}

/// For every full-length frame, decoding then applying drives the
/// enable line high exactly when the frame's first byte is non-zero;
/// in particular a first byte of 1 arms the motor and 0 disarms it.
pub proof fn lemma_enable_tracks_frame(frame: Seq<u8>, m: MotorState, max_duty: u16)
    requires
        frame.len() == COMMAND_SIZE,
    ensures
        spec_apply(m, spec_decode(frame), max_duty).enabled <==> frame[0] != 0,
{
}

/// For every throttle in `[0, THROTTLE_SCALE]` the applied duty is the
/// rounded fraction of `max_duty`; for every throttle outside that
/// range the duty is exactly the prior duty.
pub proof fn lemma_duty_mapping(m: MotorState, c: Command, max_duty: u16)
    ensures
        valid_throttle(c.throttle as int) ==> spec_apply(m, c, max_duty).duty == spec_duty(
            max_duty,
            c.throttle as int,
        ),
        !valid_throttle(c.throttle as int) ==> spec_apply(m, c, max_duty).duty == m.duty,
{
    if valid_throttle(c.throttle as int) {
        lemma_duty_bounded(max_duty, c.throttle as int);
    }
}

} // verus!
