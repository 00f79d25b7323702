use pressure::calibrate::{scale_ticks_to_nanos, CalibrationFactor};
use pressure::cpu::{calibration_from_reported, classify_tsc_invariance, TscStatus};

#[test]
fn factor_rejects_a_zero_frequency() {
    assert!(CalibrationFactor::from_frequency(0).is_none());
    assert!(CalibrationFactor::from_frequency(1).is_some());
}

#[test]
fn calibration_is_deterministic_across_repeated_derivations() {
    // Two factors derived from the same reported frequency agree exactly,
    // and so does every conversion made with them.
    let first = CalibrationFactor::from_frequency(3_000_000_000).unwrap();
    let second = CalibrationFactor::from_frequency(3_000_000_000).unwrap();
    assert_eq!(first.tsc_frequency_hz, second.tsc_frequency_hz);
    assert_eq!(first.ticks_of_nanos(200), second.ticks_of_nanos(200));
    assert_eq!(first.nanos_of_ticks(12345), second.nanos_of_ticks(12345));
}

#[test]
fn an_interval_calibrates_to_its_tick_rate() {
    // 2_000_000 ticks over 1_000_000 ns: 2 ticks per nanosecond, 2 GHz.
    let factor = CalibrationFactor::from_interval(2_000_000, 1_000_000).unwrap();
    assert_eq!(factor.tsc_frequency_hz, 2_000_000_000);
    // An unmeasurable interval or a stalled counter yields no factor.
    assert!(CalibrationFactor::from_interval(1000, 0).is_none());
    assert!(CalibrationFactor::from_interval(0, 1000).is_none());
}

#[test]
fn nanosecond_tolerance_converts_to_ticks_by_the_frequency() {
    // At 3 GHz a tick lasts a third of a nanosecond: 200 ns are 600 ticks.
    let factor = CalibrationFactor::from_frequency(3_000_000_000).unwrap();
    assert_eq!(factor.ticks_of_nanos(200), 600);
    // At 1 GHz ticks and nanoseconds coincide.
    let unit = CalibrationFactor::from_frequency(1_000_000_000).unwrap();
    assert_eq!(unit.ticks_of_nanos(200), 200);
}

#[test]
fn tolerance_conversion_truncates_rather_than_rounds() {
    // 3 ns at 2.5 GHz are 7.5 ticks; the conversion keeps 7.
    let factor = CalibrationFactor::from_frequency(2_500_000_000).unwrap();
    assert_eq!(factor.ticks_of_nanos(3), 7);
}

#[test]
fn ticks_convert_back_to_nanoseconds() {
    let factor = CalibrationFactor::from_frequency(2_000_000_000).unwrap();
    assert_eq!(factor.nanos_of_ticks(1000), 500);
}

#[test]
fn probe_scales_ticks_by_its_own_local_ratio() {
    // 3000 ticks elapsed over 1000 ns: a 30-tick median is 10 ns.
    assert_eq!(scale_ticks_to_nanos(30, 3000, 1000), 10);
}

#[test]
fn invariance_answers_classify_exactly() {
    assert_eq!(classify_tsc_invariance(Some(true)), TscStatus::Invariant);
    assert_eq!(classify_tsc_invariance(Some(false)), TscStatus::NotInvariant);
    assert_eq!(classify_tsc_invariance(None), TscStatus::Unavailable);
}

#[test]
fn reported_frequencies_yield_a_factor_exactly_when_positive() {
    assert!(calibration_from_reported(None).is_none());
    assert!(calibration_from_reported(Some(0)).is_none());
    let factor = calibration_from_reported(Some(2_000_000_000)).unwrap();
    assert_eq!(factor.tsc_frequency_hz, 2_000_000_000);
}
