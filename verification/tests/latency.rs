use pressure::latency::{core_pairs, fill_matrix, median_of_three, one_way_latency, LatencyMatrix};
use pressure::pingpong::PingPong;

#[test]
fn one_way_latency_halves_the_per_trip_time() {
    // 4 ms over 1000 round trips: 4000 ns per trip, 2000 ns one way.
    assert_eq!(one_way_latency(4_000_000, 1000), 2000);
}

#[test]
fn one_way_latency_truncates_toward_zero() {
    assert_eq!(one_way_latency(999, 1000), 0);
    assert_eq!(one_way_latency(5, 2), 1);
}

#[test]
fn median_of_three_picks_the_middle_run() {
    assert_eq!(median_of_three(70, 80, 75), 75);
    assert_eq!(median_of_three(80, 70, 75), 75);
    assert_eq!(median_of_three(75, 80, 70), 75);
    assert_eq!(median_of_three(5, 5, 9), 5);
    assert_eq!(median_of_three(4, 4, 4), 4);
}

#[test]
fn median_of_three_discards_a_single_outlier() {
    // One run disturbed by an interrupt does not shift the retained value.
    assert_eq!(median_of_three(70, 72, 9000), 72);
}

#[test]
fn fresh_matrix_is_all_sentinel() {
    let matrix = LatencyMatrix::new(3);
    assert_eq!(matrix.size(), 3);
    for row in 0..3 {
        for col in 0..3 {
            assert_eq!(matrix.get(row, col), 0);
        }
    }
}

#[test]
fn record_fills_only_the_lower_triangle_entry() {
    let mut matrix = LatencyMatrix::new(3);
    matrix.record(2, 1, 40, 60, 50);
    assert_eq!(matrix.get(2, 1), 50);
    for row in 0..3 {
        for col in 0..3 {
            if !(row == 2 && col == 1) {
                assert_eq!(matrix.get(row, col), 0);
            }
        }
    }
}

#[test]
fn core_pairs_visits_each_distinct_pair_once_in_order() {
    assert_eq!(core_pairs(4), vec![(0, 1), (0, 2), (0, 3), (1, 2), (1, 3), (2, 3)]);
    assert_eq!(core_pairs(1), vec![]);
    assert_eq!(core_pairs(0), vec![]);
}

#[test]
fn two_core_sweep_populates_exactly_one_entry() {
    // Two synthetic cores, the full protocol at 1000 round trips per run,
    // three runs for the single pair: the matrix ends with exactly one
    // populated entry, below the diagonal.
    let round_trips: u32 = 1000;
    let pairs = core_pairs(2);
    assert_eq!(pairs, vec![(0, 1)]);

    let synthetic_elapsed_nanos: [u128; 3] = [140_000, 160_000, 150_000];
    let mut runs: Vec<u64> = Vec::new();
    for elapsed in synthetic_elapsed_nanos {
        let (state, transitions) = PingPong::complete_run(round_trips);
        assert_eq!(transitions, 2 * round_trips as u64);
        assert_eq!(state.turns_first, round_trips);
        assert_eq!(state.turns_second, round_trips);
        runs.push(one_way_latency(elapsed, round_trips));
    }
    let pair_runs: Vec<(u64, u64, u64)> = vec![(runs[0], runs[1], runs[2])];
    let matrix = fill_matrix(2, &pairs, &pair_runs);

    assert_eq!(matrix.get(1, 0), 75);
    assert!(matrix.get(1, 0) > 0);
    assert_eq!(matrix.get(0, 0), 0);
    assert_eq!(matrix.get(0, 1), 0);
    assert_eq!(matrix.get(1, 1), 0);
}
