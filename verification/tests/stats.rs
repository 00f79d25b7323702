use pressure::noise::{NoiseAccumulator, NoiseReport};
use pressure::stats::{first_positive_sample, median, noise_sum};

#[test]
fn wall_clock_probe_reports_first_positive_sample() {
    // Mostly-zero raw deltas: the first strictly positive one is reported,
    // not the smallest and not a later one.
    let samples: Vec<u64> = vec![0, 0, 0, 5, 0, 3];
    assert_eq!(first_positive_sample(&samples), Some(5));
}

#[test]
fn wall_clock_probe_reports_none_when_all_samples_are_zero() {
    let samples: Vec<u64> = vec![0, 0, 0, 0];
    assert_eq!(first_positive_sample(&samples), None);
    let empty: Vec<u64> = Vec::new();
    assert_eq!(first_positive_sample(&empty), None);
}

#[test]
fn wall_clock_probe_never_reports_zero() {
    let samples: Vec<u64> = vec![0, 0, 7];
    let reported = first_positive_sample(&samples).unwrap();
    assert!(reported > 0);
}

#[test]
fn median_of_sorted_odd_length_is_middle_element() {
    let mut samples: Vec<u64> = vec![2, 4, 6, 8, 10];
    assert_eq!(median(&mut samples), 6);
}

#[test]
fn median_sorts_before_picking_the_middle() {
    let mut samples: Vec<u64> = vec![9, 1, 5];
    assert_eq!(median(&mut samples), 5);
    assert_eq!(samples, vec![1, 5, 9]);
}

#[test]
fn median_of_even_length_takes_upper_middle() {
    let mut samples: Vec<u64> = vec![1, 2, 3, 4];
    assert_eq!(median(&mut samples), 3);
}

#[test]
fn median_of_single_sample_is_that_sample() {
    let mut samples: Vec<u64> = vec![42];
    assert_eq!(median(&mut samples), 42);
}

#[test]
fn noise_sum_is_zero_when_tolerance_covers_every_delta() {
    let deltas: Vec<u64> = vec![10, 25, 3, 25];
    assert_eq!(noise_sum(&deltas, 25), 0);
}

#[test]
fn noise_sum_with_zero_tolerance_accumulates_every_delta_in_full() {
    let deltas: Vec<u64> = vec![10, 25, 3, 25];
    assert_eq!(noise_sum(&deltas, 0), 10 + 25 + 3 + 25);
}

#[test]
fn noise_sum_accumulates_only_the_excess_over_the_tolerance() {
    // 30 and 100 exceed the tolerance of 20 by 10 and 80; 20 and 5 are
    // excluded entirely, not clamped.
    let deltas: Vec<u64> = vec![30, 20, 5, 100];
    assert_eq!(noise_sum(&deltas, 20), 10 + 80);
}

#[test]
fn noise_report_holds_the_reduction_of_its_pass() {
    let deltas: Vec<u64> = vec![30, 20, 5, 100];
    let report = NoiseReport::from_deltas(3, &deltas, 20, 1000);
    assert_eq!(report.core, 3);
    assert_eq!(report.noise_ticks, 90);
    assert_eq!(report.total_ticks, 1000);
    // 90 of 1000 ticks lost: 9 percent, in hundredths of a percent.
    assert_eq!(report.lost_basis_points(), 900);
}

#[test]
fn streaming_accumulation_matches_the_batch_reduction() {
    let deltas: Vec<u64> = vec![30, 20, 5, 100, 0, 21];
    let mut acc = NoiseAccumulator::new(20);
    for &delta in &deltas {
        acc.observe(delta);
    }
    let report = acc.into_report(1, 4096);
    assert_eq!(report.noise_ticks, noise_sum(&deltas, 20));
    assert_eq!(report.core, 1);
    assert_eq!(report.total_ticks, 4096);
}

#[test]
fn noise_report_of_a_quiet_pass_loses_nothing() {
    let deltas: Vec<u64> = vec![10, 25, 3];
    let report = NoiseReport::from_deltas(0, &deltas, 25, 500);
    assert_eq!(report.noise_ticks, 0);
    assert_eq!(report.lost_basis_points(), 0);
}
