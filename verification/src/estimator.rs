//! Calibration and the streaming loop's per-activation step.
//!
//! The estimator runs in two phases.  Calibrating: a fixed number of
//! gyro samples is taken, failed reads are discarded, and the
//! remaining samples are combined with the recursive pairwise blend
//! `acc = (acc + next) / 2` — deliberately not the arithmetic mean,
//! so later samples weigh more.  No successful sample at all aborts
//! calibration.  Streaming: each activation corrects the raw gyro
//! rate by the bias, fuses it into the orientation estimate,
//! serializes the estimate (telemetry frame plus one end marker
//! byte), and re-arms its own capacity-one task slot for `now +
//! STREAM_PERIOD_MICROS`.

use vstd::prelude::*;
use crate::command::EOT;
use crate::orientation::{Orientation, spec_adjust, spec_frame, ANGLE_LIMIT, TELEMETRY_SIZE};
use crate::sched::TaskSlot;
use crate::vec3::{Vec3, lemma_blend_in_range};

verus! {

/// Gyro samples are physically bounded well below the angle limit,
/// so a bias-corrected rate always stays representable.
pub const RATE_LIMIT: i64 = 0x0800_0000_0000_0000;

/// Number of gyro reads attempted during calibration.
pub const CALIBRATION_SAMPLES: usize = 2000;

/// Reschedule spacing of the streaming loop, in monotonic ticks.
pub const STREAM_PERIOD_MICROS: u64 = 4;

/// Fold the blend over the remaining samples, skipping failed reads.
pub open spec fn spec_cal_fold(acc: Vec3, samples: Seq<Option<Vec3>>) -> Vec3
    decreases samples.len(),
{
    if samples.len() == 0 {
        acc
    } else {
        match samples[0] {
            Some(s) => spec_cal_fold(acc.spec_blend(s), samples.skip(1)),
            None => spec_cal_fold(acc, samples.skip(1)),
        }
    }
}

/// The calibration result: the first successful sample seeds the
/// accumulator, every later successful sample is blended in, and a
/// run with no successful sample yields nothing.
pub open spec fn spec_calibrate(samples: Seq<Option<Vec3>>) -> Option<Vec3>
    decreases samples.len(),
{
    if samples.len() == 0 {
        None
    } else {
        match samples[0] {
            Some(s) => Some(spec_cal_fold(s, samples.skip(1))),
            None => spec_calibrate(samples.skip(1)),
        }
    }
}

/// Every successful sample in the run is within `bound`.
pub open spec fn samples_in_range(samples: Seq<Option<Vec3>>, bound: int) -> bool {
    forall|i: int|
        0 <= i < samples.len() ==> match #[trigger] samples[i] {
            Some(v) => v.in_range(bound),
            None => true,
        }
}

/// Compute the gyro bias from one calibration run.  Failed reads are
/// discarded; the successful reads are blended pairwise in order.
/// Yields nothing when not a single read succeeded.
pub fn calibrate(samples: &Vec<Option<Vec3>>) -> (r: Option<Vec3>)
    requires
        samples_in_range(samples@, RATE_LIMIT as int),
    ensures
        r == spec_calibrate(samples@),
        r matches Some(b) ==> b.in_range(RATE_LIMIT as int),
{
    let mut acc: Option<Vec3> = None;
    let mut i: usize = 0;
    proof {
        assert(samples@.skip(0) =~= samples@);
    }
    while i < samples.len()
        invariant
            i <= samples@.len(),
            samples_in_range(samples@, RATE_LIMIT as int),
            match acc {
                None => spec_calibrate(samples@) == spec_calibrate(samples@.skip(i as int)),
                Some(a) => a.in_range(RATE_LIMIT as int) && spec_calibrate(samples@) == Some(
                    spec_cal_fold(a, samples@.skip(i as int)),
                ),
            },
        decreases samples@.len() - i,
    {
        let cur: Option<Vec3> = samples[i];
        proof {
            assert(samples@.skip(i as int)[0] == samples@[i as int]);
            assert(samples@.skip(i as int).skip(1) =~= samples@.skip(i as int + 1));
        }
        match cur {
            Some(s) => {
                match acc {
                    Some(a) => {
                        proof {
                            lemma_blend_in_range(a, s, RATE_LIMIT as int);
                        }
                        acc = Some(a.blend(s));
                    },
                    None => {
                        acc = Some(s);
                    },
                }
            },
            None => {},
        }
        i = i + 1;
    }
    proof {
        assert(samples@.skip(samples@.len() as int) =~= Seq::<Option<Vec3>>::empty());
    }
    acc
}

/// The state the streaming loop threads through its activations:
/// the bias fixed at calibration and the live orientation estimate.
#[derive(Clone, Copy, Debug, PartialEq, Eq, Structural)]
pub struct Estimator {
    pub bias: Vec3,
    pub orientation: Orientation,
}

impl Estimator {
    /// The bias is a blend of physical gyro rates and the estimate
    /// is within its saturation limit.
    pub open spec fn wf(self) -> bool {
        &&& self.bias.in_range(RATE_LIMIT as int)
        &&& self.orientation.wf()
    }
}

/// What one streaming activation does to the estimator state.
pub open spec fn spec_stream_step(e: Estimator, raw_gyro: Vec3, accel: Vec3) -> Estimator {
    Estimator {
        bias: e.bias,
        orientation: spec_adjust(e.orientation, raw_gyro.spec_sub(e.bias), accel),
    }
}

/// Finish calibration and enter the streaming phase: the blended
/// bias plus an estimate initialized from the accelerometer-derived
/// angles.  Aborts (returns nothing) when calibration yielded no
/// measurement, as acting without a bias would be unsafe.
pub fn begin_streaming(samples: &Vec<Option<Vec3>>, initial_angles: Vec3, accel_div: u32) -> (r:
    Option<Estimator>)
    requires
        samples_in_range(samples@, RATE_LIMIT as int),
        initial_angles.in_range(ANGLE_LIMIT as int),
    ensures
        match spec_calibrate(samples@) {
            None => r is None,
            Some(bias) => r == Some(
                Estimator { bias, orientation: Orientation { angles: initial_angles, accel_div } },
            ),
        },
        r matches Some(e) ==> e.wf(),
{
    match calibrate(samples) {
        None => None,
        Some(bias) => Some(Estimator { bias, orientation: Orientation::new(initial_angles, accel_div) }),
    }
}

/// One activation of the streaming loop: fuse the bias-corrected
/// gyro rate and the accelerometer angles into the estimate, build
/// the telemetry bytes (frame then end marker), and re-arm the
/// capacity-one task slot exactly once, at `now` plus the streaming
/// period.
pub fn stream_iteration(
    est: &mut Estimator,
    raw_gyro: Vec3,
    accel: Vec3,
    slot: &mut TaskSlot,
    now: u64,
) -> (telemetry: Vec<u8>)
    requires
        old(est).wf(),
        raw_gyro.in_range(RATE_LIMIT as int),
        accel.in_range(ANGLE_LIMIT as int),
        old(slot).pending is None,
        now + STREAM_PERIOD_MICROS <= u64::MAX,
    ensures
        *final(est) == spec_stream_step(*old(est), raw_gyro, accel),
        final(est).wf(),
        telemetry@ == spec_frame(final(est).orientation).push(EOT),
        telemetry@.len() == TELEMETRY_SIZE + 1,
        final(slot).pending == Some((now + STREAM_PERIOD_MICROS) as u64),
{
    let next_at: u64 = now + STREAM_PERIOD_MICROS;
    let rate: Vec3 = raw_gyro.sub_axes(est.bias);
    est.orientation.adjust(rate, accel);
    let mut telemetry: Vec<u8> = est.orientation.to_frame();
    telemetry.push(EOT);
    let _ = slot.spawn_at(next_at);
    telemetry
}

/// Calibration equals the recursive pairwise blend, not the mean:
/// over a run in which every read succeeded, the result is
/// `fold(g0, g1..gN-1, (a, b) -> (a + b) / 2)`.
pub proof fn lemma_calibration_is_recursive_blend(samples: Seq<Option<Vec3>>, values: Seq<Vec3>)
    requires
        samples.len() == values.len(),
        forall|i: int| 0 <= i < samples.len() ==> samples[i] == Some(values[i]),
        values.len() >= 1,
    ensures
        spec_calibrate(samples) == Some(spec_blend_fold(values[0], values.skip(1))),
{
    lemma_cal_fold_matches(values[0], samples.skip(1), values.skip(1));
}

/// The pairwise blend folded from the left over a sample run.
pub open spec fn spec_blend_fold(acc: Vec3, rest: Seq<Vec3>) -> Vec3
    decreases rest.len(),
{
    if rest.len() == 0 {
        acc
    } else {
        spec_blend_fold(acc.spec_blend(rest[0]), rest.skip(1))
    }
}

/// On an all-successful tail the calibration fold and the pure blend
/// fold coincide.
proof fn lemma_cal_fold_matches(acc: Vec3, samples: Seq<Option<Vec3>>, values: Seq<Vec3>)
    requires
        samples.len() == values.len(),
        forall|i: int| 0 <= i < samples.len() ==> samples[i] == Some(values[i]),
    ensures
        spec_cal_fold(acc, samples) == spec_blend_fold(acc, values),
    decreases samples.len(),
{
    if samples.len() == 0 {
    } else {
        assert(samples[0] == Some(values[0]));
        lemma_cal_fold_matches(acc.spec_blend(values[0]), samples.skip(1), values.skip(1));
    }
}

} // verus!
