//! The per-core noise report: the aggregate a noise-sampling pass reduces to.
//! Each sampled delta above the tick tolerance contributes its excess to the
//! noise total; the report relates that total to the whole pass.

use crate::stats::{noise_sum, noise_sum_spec};
use vstd::prelude::*;

verus! {

/// The running accumulation a noise-sampling pass keeps while it polls: the
/// noise total of every delta observed so far, under a fixed tick tolerance.
/// The deltas themselves are not retained — a pass observes far too many to
/// store — only their accumulated noise, which provably equals the noise of
/// the observed history.
pub struct NoiseAccumulator {
    /// The tick tolerance every delta is compared against.
    pub tick_tolerance: u64,
    /// Accumulated excess ticks of the deltas observed so far.
    pub noise_ticks: u128,
    /// The observed deltas, kept only for the accumulator's contract.
    pub history: Ghost<Seq<u64>>,
}

impl NoiseAccumulator {
    /// The accumulated total is exactly the noise of the observed history.
    pub open spec fn wf(self) -> bool {
        self.noise_ticks == noise_sum_spec(self.history@, self.tick_tolerance)
    }

    /// A fresh accumulator under the given tick tolerance.
    pub fn new(tick_tolerance: u64) -> (acc: NoiseAccumulator)
        ensures
            acc.wf(),
            acc.tick_tolerance == tick_tolerance,
            acc.noise_ticks == 0,
            acc.history@ == Seq::<u64>::empty(),
    {
        NoiseAccumulator { tick_tolerance, noise_ticks: 0, history: Ghost(Seq::empty()) }
    }

    /// Observe one back-to-back delta: a delta above the tolerance adds its
    /// excess to the total, any other delta adds nothing at all.
    pub fn observe(&mut self, delta: u64)
        requires
            old(self).noise_ticks <= u128::MAX - u64::MAX,
        ensures
            final(self).tick_tolerance == old(self).tick_tolerance,
            final(self).history@ == old(self).history@.push(delta),
            final(self).noise_ticks == old(self).noise_ticks + if delta
                > old(self).tick_tolerance {
                (delta - old(self).tick_tolerance) as int
            } else {
                0
            },
            old(self).wf() ==> final(self).wf(),
    {
        if delta > self.tick_tolerance {
            self.noise_ticks = self.noise_ticks + ((delta - self.tick_tolerance) as u128);
        }
        proof {
            let h = self.history@.push(delta);
            assert(h.drop_last() =~= self.history@);
        }
        self.history = Ghost(self.history@.push(delta));
    }

    /// Close the pass: relate the accumulated noise to the whole pass.
    pub fn into_report(self, core: usize, total_ticks: u64) -> (report: NoiseReport)
        requires
            self.wf(),
        ensures
            report.core == core,
            report.noise_ticks == noise_sum_spec(self.history@, self.tick_tolerance),
            report.total_ticks == total_ticks,
    {
        NoiseReport { core, noise_ticks: self.noise_ticks, total_ticks }
    }
}

/// The aggregate of one noise-sampling pass on one pinned core: derived once,
/// read-only afterwards.
pub struct NoiseReport {
    /// The enumerated core the pass was pinned to.
    pub core: usize,
    /// Total excess ticks beyond the tolerance, over all sampled deltas.
    pub noise_ticks: u128,
    /// Ticks elapsed over the whole pass, closing read minus opening read.
    pub total_ticks: u64,
}

impl NoiseReport {
    /// Reduce the sampled deltas of one pass to its report.
    pub fn from_deltas(core: usize, deltas: &Vec<u64>, tick_tolerance: u64, total_ticks: u64) -> (
        report: NoiseReport)
        ensures
            report.core == core,
            report.noise_ticks == noise_sum_spec(deltas@, tick_tolerance),
            report.total_ticks == total_ticks,
    {
        let noise_ticks = noise_sum(deltas, tick_tolerance);
        NoiseReport { core, noise_ticks, total_ticks }
    }

    /// The share of the pass lost to interruptions, in hundredths of a
    /// percent of the elapsed ticks. Truncates.
    pub fn lost_basis_points(&self) -> (share: u128)
        requires
            self.total_ticks > 0,
            self.noise_ticks <= u128::MAX / 10000,
        ensures
            share == (self.noise_ticks * 10000) / (self.total_ticks as int),
    {
        (self.noise_ticks * 10000) / (self.total_ticks as u128)
    }
}

} // verus!
