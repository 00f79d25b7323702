//! Core enumeration and the sweep plan built on it. Enumerating the logical
//! cores is an operating-system query; planning which pairs the latency sweep
//! visits, and in what order, is verified logic on the enumeration's result.
//! Pinning a thread to a core happens on the measuring threads themselves,
//! next to the spawning that the driver owns.

use crate::latency::{core_pairs, pair_before};
use vstd::prelude::*;

verus! {

/// Relies on core_affinity::get_core_ids: the ids of the logical cores the
/// current process may run on, in enumeration order; None where the
/// enumeration fails.
#[verifier::external_body]
fn enumerate_cores() -> Option<Vec<usize>> {
    core_affinity::get_core_ids().map(|ids| ids.into_iter().map(|core| core.id).collect())
}

/// Enumerate the logical cores and plan the latency sweep over them: the
/// enumerated core ids in order, with every distinct pair of enumeration
/// positions, each pair exactly once, earlier position first, in enumeration
/// order. None exactly where the machine's enumeration failed, which aborts
/// the whole sweep.
pub fn plan_sweep() -> (plan: Option<(Vec<usize>, Vec<(usize, usize)>)>)
    ensures
        plan is Some ==> {
            let (cores, pairs) = plan->0;
            &&& forall|k: int|
                0 <= k < pairs@.len() ==> (#[trigger] pairs@[k]).0 < pairs@[k].1 < cores@.len()
            &&& forall|i: usize, j: usize| i < j < cores@.len() ==> pairs@.contains((i, j))
            &&& forall|k1: int, k2: int|
                0 <= k1 < k2 < pairs@.len() ==> pair_before(
                    #[trigger] pairs@[k1],
                    #[trigger] pairs@[k2],
                )
        },
{
    match enumerate_cores() {
        Some(cores) => {
            let pairs = core_pairs(cores.len());
            Some((cores, pairs))
        },
        None => None,
    }
}

} // verus!
