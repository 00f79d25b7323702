use pressure::pingpong::PingPong;

#[test]
fn a_worker_cannot_flip_out_of_turn() {
    let mut p = PingPong::new();
    // The flag starts at false: the second worker's attempt fails and
    // changes nothing.
    assert!(!p.try_flip(true));
    assert!(!p.flag);
    assert_eq!(p.turns_first, 0);
    assert_eq!(p.turns_second, 0);
}

#[test]
fn turns_strictly_alternate() {
    let mut p = PingPong::new();
    assert!(p.try_flip(false));
    assert!(p.flag);
    // The first worker's turn is over; only its peer can flip now.
    assert!(!p.try_flip(false));
    assert!(p.try_flip(true));
    assert!(!p.flag);
    assert_eq!(p.turns_first, 1);
    assert_eq!(p.turns_second, 1);
}

#[test]
fn a_complete_run_makes_two_transitions_per_round_trip() {
    let (state, transitions) = PingPong::complete_run(1000);
    assert_eq!(transitions, 2000);
    assert_eq!(state.turns_first, 1000);
    assert_eq!(state.turns_second, 1000);
    assert!(!state.flag);
}

#[test]
fn an_empty_run_makes_no_transitions() {
    let (state, transitions) = PingPong::complete_run(0);
    assert_eq!(transitions, 0);
    assert!(!state.flag);
}
