//! The processor queries the measurements depend on: the TSC frequency that
//! calibration converts into a factor, and the invariant-TSC flag whose
//! absence makes cross-core comparisons unreliable. The cpuid calls are
//! trusted declarations; everything derived from their answers is verified.

use crate::calibrate::CalibrationFactor;
use vstd::prelude::*;

verus! {

#[verifier::external_type_specification]
#[verifier::external_body]
pub struct ExTscInfo(raw_cpuid::TscInfo);

#[verifier::external_type_specification]
#[verifier::external_body]
pub struct ExApmInfo(raw_cpuid::ApmInfo);

/// Relies on raw_cpuid::CpuId::new and raw_cpuid::CpuId::get_tsc_info: builds
/// a cpuid handle for the current processor and reads its
/// TSC/core-crystal-clock leaf; None where that leaf is unsupported.
#[verifier::external_body]
fn query_tsc_info() -> Option<raw_cpuid::TscInfo> {
    raw_cpuid::CpuId::new().get_tsc_info()
}

/// Relies on raw_cpuid::CpuId::new and
/// raw_cpuid::CpuId::get_advanced_power_mgmt_info: builds a cpuid handle for
/// the current processor and reads its power-management leaf; None where that
/// leaf is unsupported.
#[verifier::external_body]
fn query_apm_info() -> Option<raw_cpuid::ApmInfo> {
    raw_cpuid::CpuId::new().get_advanced_power_mgmt_info()
}

/// Relies on raw_cpuid::TscInfo::tsc_frequency: the TSC frequency in Hz,
/// computed from the crystal frequency and ratio; None where any of the
/// reported fields is zero.
pub assume_specification[ raw_cpuid::TscInfo::tsc_frequency ](
    info: &raw_cpuid::TscInfo,
) -> Option<u64>;

/// Relies on raw_cpuid::ApmInfo::has_invariant_tsc: the invariant-TSC bit of
/// the power-management leaf.
pub assume_specification[ raw_cpuid::ApmInfo::has_invariant_tsc ](
    info: &raw_cpuid::ApmInfo,
) -> bool;

/// What the processor answered about TSC invariance. A counter that is not
/// invariant across frequency states makes cross-core latencies unreliable: a
/// warning, not a fatal fault. An unavailable answer is a fatal environment
/// fault, since the machine cannot be validated at all.
#[derive(PartialEq, Eq, Structural, Clone, Copy, Debug)]
pub enum TscStatus {
    /// The counter advances at a constant rate across power states.
    Invariant,
    /// The counter may change rate: results may not be comparable.
    NotInvariant,
    /// The processor did not expose the power-management leaf.
    Unavailable,
}

/// Classify the processor's invariant-TSC answer.
pub fn classify_tsc_invariance(answer: Option<bool>) -> (status: TscStatus)
    ensures
        status == match answer {
            Some(true) => TscStatus::Invariant,
            Some(false) => TscStatus::NotInvariant,
            None => TscStatus::Unavailable,
        },
{
    match answer {
        Some(true) => TscStatus::Invariant,
        Some(false) => TscStatus::NotInvariant,
        None => TscStatus::Unavailable,
    }
}

/// Validate the machine for measurement: read the power-management leaf and
/// classify whatever it answered about TSC invariance.
pub fn read_tsc_status() -> TscStatus {
    let answer = match query_apm_info() {
        Some(info) => Some(info.has_invariant_tsc()),
        None => None,
    };
    classify_tsc_invariance(answer)
}

/// Derive the calibration factor from a frequency the processor may or may
/// not have reported: a missing or zero frequency yields no factor.
pub fn calibration_from_reported(frequency: Option<u64>) -> (factor: Option<CalibrationFactor>)
    ensures
        factor is Some <==> frequency is Some && frequency->0 > 0,
        factor is Some ==> factor->0.tsc_frequency_hz == frequency->0 && factor->0.wf(),
{
    match frequency {
        Some(hz) => CalibrationFactor::from_frequency(hz),
        None => None,
    }
}

/// Read the TSC frequency from the processor and derive the calibration
/// factor; whatever came back, a returned factor is well formed.
pub fn read_calibration() -> (factor: Option<CalibrationFactor>)
    ensures
        factor is Some ==> factor->0.wf(),
{
    let frequency = match query_tsc_info() {
        Some(info) => info.tsc_frequency(),
        None => None,
    };
    calibration_from_reported(frequency)
}

} // verus!
