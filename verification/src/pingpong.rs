//! The ping-pong turn protocol that the cross-core measurement runs: a single
//! shared flag bounced between two workers, each flipping it only on its own
//! turn. The type models one invocation of the protocol; `try_flip` is the
//! compare-and-swap attempt each spin iteration makes, and `complete_run`
//! shows that a full run makes exactly two flag transitions per round trip,
//! which is what divides the elapsed wall time into a one-way latency.

use vstd::prelude::*;

verus! {

/// The state one protocol invocation goes through: the shared turn flag and
/// the number of turns each worker has completed. The worker whose turn is
/// the flag's starting value `false` flips it to `true`; its peer flips it
/// back. The flag is owned by exactly one invocation and never reused.
pub struct PingPong {
    /// The shared flag; its value names the worker whose turn it is.
    pub flag: bool,
    /// Completed turns of the worker that flips `false` to `true`.
    pub turns_first: u32,
    /// Completed turns of the worker that flips `true` to `false`.
    pub turns_second: u32,
}

impl PingPong {
    /// A fresh invocation: the flag starts at `false` and no turns are done.
    pub fn new() -> (p: PingPong)
        ensures
            p.flag == false,
            p.turns_first == 0,
            p.turns_second == 0,
    {
        PingPong { flag: false, turns_first: 0, turns_second: 0 }
    }

    /// One compare-and-swap attempt by the worker expecting `my_turn`: it
    /// flips the flag exactly when the flag holds the expected value, and
    /// otherwise changes nothing — the spin-wait of the real protocol is a
    /// retry of this step until it reports success.
    pub fn try_flip(&mut self, my_turn: bool) -> (flipped: bool)
        requires
            my_turn == false ==> old(self).turns_first < u32::MAX,
            my_turn == true ==> old(self).turns_second < u32::MAX,
        ensures
            flipped == (old(self).flag == my_turn),
            flipped ==> final(self).flag == !my_turn,
            !flipped ==> final(self).flag == old(self).flag,
            final(self).turns_first == if flipped && my_turn == false {
                old(self).turns_first + 1
            } else {
                old(self).turns_first as int
            },
            final(self).turns_second == if flipped && my_turn == true {
                old(self).turns_second + 1
            } else {
                old(self).turns_second as int
            },
    {
        if self.flag == my_turn {
            self.flag = !my_turn;
            if my_turn == false {
                self.turns_first = self.turns_first + 1;
            } else {
                self.turns_second = self.turns_second + 1;
            }
            true
        } else {
            false
        }
    }

    /// A complete run of the protocol: each worker performs `round_trips`
    /// turns. The turns strictly alternate, every attempt made on the
    /// holder's turn succeeds, the flag comes back to its starting value, and
    /// the run makes exactly `2 * round_trips` flag transitions — the count
    /// that divides the elapsed wall time of a run.
    pub fn complete_run(round_trips: u32) -> (result: (PingPong, u64))
        ensures
            result.0.flag == false,
            result.0.turns_first == round_trips,
            result.0.turns_second == round_trips,
            result.1 == 2 * round_trips as u64,
    {
        let mut p = PingPong::new();
        let mut transitions: u64 = 0;
        let mut done: u32 = 0;
        while done < round_trips
            invariant
                done <= round_trips,
                p.flag == false,
                p.turns_first == done,
                p.turns_second == done,
                transitions == 2 * done as u64,
            decreases round_trips - done,
        {
            let first = p.try_flip(false);
            assert(first);
            let second = p.try_flip(true);
            assert(second);
            transitions = transitions + 2;
            done = done + 1;
        }
        (p, transitions)
    }
}

} // verus!
