//! Calibration of cycle-counter ticks to nanoseconds. The factor is kept as
//! the exact rational `NANOS_PER_SECOND / frequency` — numerator and
//! denominator — rather than as a rounded quotient, so every conversion is a
//! single exact integer computation whose truncation is explicit.

use crate::NANOS_PER_SECOND;
use vstd::prelude::*;

verus! {

/// Nanoseconds per cycle-counter tick, represented exactly by the counter's
/// frequency in Hz: one tick lasts `NANOS_PER_SECOND / tsc_frequency_hz`
/// nanoseconds. Invariant: the frequency is strictly positive, so the factor
/// is strictly positive and finite.
pub struct CalibrationFactor {
    /// The cycle counter's frequency in Hz.
    pub tsc_frequency_hz: u64,
}

impl CalibrationFactor {
    /// The factor is valid: a zero frequency describes no clock.
    pub open spec fn wf(self) -> bool {
        self.tsc_frequency_hz > 0
    }

    /// A nanosecond interval converted to whole ticks, truncating: the
    /// conversion rounds toward zero, it never rounds up.
    pub open spec fn ticks_of_nanos_spec(self, nanos: u64) -> int
        recommends
            self.wf(),
    {
        (nanos as int * self.tsc_frequency_hz as int) / (NANOS_PER_SECOND as int)
    }

    /// A tick count converted to whole nanoseconds, truncating.
    pub open spec fn nanos_of_ticks_spec(self, ticks: u128) -> int
        recommends
            self.wf(),
    {
        (ticks as int * NANOS_PER_SECOND as int) / (self.tsc_frequency_hz as int)
    }

    /// Derive the factor from a reported counter frequency; a zero frequency
    /// is rejected, everything else is accepted as it stands.
    pub fn from_frequency(tsc_frequency_hz: u64) -> (factor: Option<CalibrationFactor>)
        ensures
            factor is Some <==> tsc_frequency_hz > 0,
            factor is Some ==> factor->0.tsc_frequency_hz == tsc_frequency_hz && factor->0.wf(),
    {
        if tsc_frequency_hz > 0 {
            Some(CalibrationFactor { tsc_frequency_hz })
        } else {
            None
        }
    }

    /// Derive the factor by correlating a wall-clock interval against the
    /// cycle-counter delta observed over the same interval: the counter's
    /// frequency is the tick delta scaled to a full second, truncating. An
    /// interval too short to be measured, a counter that did not advance, or
    /// a frequency beyond the representable range yields no factor.
    pub fn from_interval(tick_delta: u64, wall_delta_nanos: u64) -> (factor: Option<
        CalibrationFactor,
    >)
        ensures
            factor is Some <==> wall_delta_nanos > 0 && 0 < (tick_delta as int
                * NANOS_PER_SECOND as int) / (wall_delta_nanos as int) <= u64::MAX,
            factor is Some ==> factor->0.tsc_frequency_hz == (tick_delta as int
                * NANOS_PER_SECOND as int) / (wall_delta_nanos as int) && factor->0.wf(),
    {
        if wall_delta_nanos == 0 {
            return None;
        }
        proof {
            assert(tick_delta as int * NANOS_PER_SECOND as int <= u64::MAX as int
                * u64::MAX as int) by (nonlinear_arith)
                requires
                    tick_delta <= u64::MAX,
            ;
        }
        let scaled: u128 = ((tick_delta as u128) * (NANOS_PER_SECOND as u128)) / (wall_delta_nanos
            as u128);
        if scaled == 0 || scaled > u64::MAX as u128 {
            return None;
        }
        Some(CalibrationFactor { tsc_frequency_hz: scaled as u64 })
    }

    /// Convert a nanosecond tolerance into the tick tolerance the noise
    /// sampler compares deltas against. Truncates.
    pub fn ticks_of_nanos(&self, nanos: u64) -> (ticks: u64)
        requires
            self.wf(),
            self.ticks_of_nanos_spec(nanos) <= u64::MAX,
        ensures
            ticks == self.ticks_of_nanos_spec(nanos),
    {
        (((nanos as u128) * (self.tsc_frequency_hz as u128)) / (NANOS_PER_SECOND as u128)) as u64
    }

    /// Convert a tick total into whole nanoseconds. Truncates.
    pub fn nanos_of_ticks(&self, ticks: u128) -> (nanos: u128)
        requires
            self.wf(),
            ticks <= u128::MAX / (NANOS_PER_SECOND as u128),
        ensures
            nanos == self.nanos_of_ticks_spec(ticks),
    {
        proof {
            assert(ticks as int * NANOS_PER_SECOND as int <= (u128::MAX as int
                / NANOS_PER_SECOND as int) * NANOS_PER_SECOND as int) by (nonlinear_arith)
                requires
                    ticks as int <= u128::MAX as int / NANOS_PER_SECOND as int,
            ;
            assert((u128::MAX as int / NANOS_PER_SECOND as int) * NANOS_PER_SECOND as int
                <= u128::MAX as int) by (nonlinear_arith);
        }
        (ticks * (NANOS_PER_SECOND as u128)) / (self.tsc_frequency_hz as u128)
    }
}

/// Calibration is deterministic: two factors derived from the same reported
/// frequency are equal, and every conversion made with them agrees exactly.
pub proof fn lemma_calibration_deterministic(a: CalibrationFactor, b: CalibrationFactor)
    requires
        a.tsc_frequency_hz == b.tsc_frequency_hz,
    ensures
        a == b,
        forall|nanos: u64| a.ticks_of_nanos_spec(nanos) == b.ticks_of_nanos_spec(nanos),
        forall|ticks: u128| a.nanos_of_ticks_spec(ticks) == b.nanos_of_ticks_spec(ticks),
{
}

/// The self-contained tick-to-nanosecond scaling of the resolution probe: a
/// tick count scaled by the ratio of the wall-clock nanoseconds to the
/// counter ticks that elapsed over the whole sampling loop. Deliberately
/// independent of `CalibrationFactor`, which the probe is partly responsible
/// for validating.
pub open spec fn scale_ticks_to_nanos_spec(ticks: u64, elapsed_ticks: u64, elapsed_nanos: u64) -> int
    recommends
        elapsed_ticks > 0,
{
    (ticks as int * elapsed_nanos as int) / (elapsed_ticks as int)
}

/// Scale a median tick sample to nanoseconds by the probe's own local ratio.
pub fn scale_ticks_to_nanos(ticks: u64, elapsed_ticks: u64, elapsed_nanos: u64) -> (nanos: u128)
    requires
        elapsed_ticks > 0,
    ensures
        nanos == scale_ticks_to_nanos_spec(ticks, elapsed_ticks, elapsed_nanos),
{
    proof {
        assert(ticks as int * elapsed_nanos as int <= u64::MAX as int * u64::MAX as int)
            by (nonlinear_arith)
            requires
                ticks <= u64::MAX,
                elapsed_nanos <= u64::MAX,
        ;
    }
    ((ticks as u128) * (elapsed_nanos as u128)) / (elapsed_ticks as u128)
}

} // verus!
