//! Statistical reduction of raw timing samples: in-place sorting, the median
//! used by the counter-based resolution probes and the latency sweep, the
//! first-positive rule used by the wall-clock probe, and the noise
//! accumulation rule used by the noise sampler.

use vstd::prelude::*;
use vstd::relations::{sorted_by, total_ordering};
use vstd::seq_lib::lemma_sorted_unique;

verus! {

/// The `<=` ordering on tick counts, as a value usable with `Seq::sort_by`.
pub open spec fn tick_order() -> spec_fn(u64, u64) -> bool {
    |a: u64, b: u64| a <= b
}

/// A sample sequence arranged in non-decreasing order.
pub open spec fn sorted(s: Seq<u64>) -> bool {
    forall|i: int, j: int| 0 <= i <= j < s.len() ==> s[i] <= s[j]
}

/// `<=` on u64 is a total ordering, so `Seq::sort_by` under it produces the
/// one sorted arrangement of a sample multiset.
proof fn lemma_tick_order_total()
    ensures
        total_ordering(tick_order()),
{
    let leq = tick_order();
    assert forall|a: u64, b: u64| #[trigger] leq(a, b) || #[trigger] leq(b, a) by {}
    assert forall|a: u64, b: u64| #[trigger] leq(a, b) && #[trigger] leq(b, a) implies a == b by {}
}

proof fn lemma_sorted_iff_sorted_by(s: Seq<u64>)
    ensures
        sorted(s) <==> sorted_by(s, tick_order()),
{
    if sorted_by(s, tick_order()) {
        assert forall|i: int, j: int| 0 <= i <= j < s.len() implies s[i] <= s[j] by {
            if i < j {
                assert(tick_order()(s[i], s[j]));
            }
        }
    }
}

/// The samples arranged in non-decreasing order.
pub open spec fn sorted_version(s: Seq<u64>) -> Seq<u64> {
    s.sort_by(tick_order())
}

/// The median of a sample sequence: the middle element (upper middle for even
/// lengths) of its sorted arrangement.
pub open spec fn median_spec(s: Seq<u64>) -> u64
    recommends
        s.len() > 0,
{
    sorted_version(s)[s.len() as int / 2]
}

/// Relies on `<[u64]>::sort_unstable`: sorts the slice in place, so the new
/// contents are an ordered permutation of the old contents.
#[verifier::external_body]
fn sort_in_place(samples: &mut Vec<u64>)
    ensures
        sorted(final(samples)@),
        final(samples)@.to_multiset() == old(samples)@.to_multiset(),
{
    samples.sort_unstable();
}

/// Reduce a sample set to its median, the statistic retained by the
/// counter-based resolution probes and by the latency sweep. The samples are
/// left sorted; the sample multiset is unchanged.
pub fn median(samples: &mut Vec<u64>) -> (m: u64)
    requires
        old(samples)@.len() > 0,
    ensures
        m == median_spec(old(samples)@),
        sorted(final(samples)@),
        final(samples)@.to_multiset() == old(samples)@.to_multiset(),
{
    sort_in_place(samples);
    proof {
        broadcast use vstd::seq_lib::group_to_multiset_ensures;

        lemma_tick_order_total();
        old(samples)@.lemma_sort_by_ensures(tick_order());
        lemma_sorted_iff_sorted_by(samples@);
        lemma_sorted_iff_sorted_by(sorted_version(old(samples)@));
        lemma_sorted_unique(samples@, sorted_version(old(samples)@), tick_order());
        assert(samples@.len() == samples@.to_multiset().len());
        assert(old(samples)@.len() == old(samples)@.to_multiset().len());
    }
    samples[samples.len() / 2]
}

/// The reported median of an already sorted sample sequence of odd length is
/// the exact middle element of that sequence.
pub proof fn lemma_median_of_sorted_is_middle(s: Seq<u64>)
    requires
        sorted(s),
        s.len() % 2 == 1,
    ensures
        median_spec(s) == s[s.len() as int / 2],
{
    lemma_tick_order_total();
    s.lemma_sort_by_ensures(tick_order());
    lemma_sorted_iff_sorted_by(s);
    lemma_sorted_iff_sorted_by(sorted_version(s));
    lemma_sorted_unique(s, sorted_version(s), tick_order());
}

/// The first strictly positive sample of a sequence, if any: the statistic
/// retained by the wall-clock resolution probe, whose raw deltas are mostly
/// exact zeros.
pub open spec fn first_positive(s: Seq<u64>) -> Option<u64>
    decreases s.len(),
{
    if s.len() == 0 {
        None
    } else if s[0] > 0 {
        Some(s[0])
    } else {
        first_positive(s.drop_first())
    }
}

/// Whatever the wall-clock probe reports is strictly positive, never zero,
/// and it reports a value exactly when some sample is positive.
pub proof fn lemma_first_positive_never_zero(s: Seq<u64>)
    ensures
        first_positive(s) is Some ==> first_positive(s)->0 > 0,
        first_positive(s) is Some <==> exists|i: int| 0 <= i < s.len() && s[i] > 0,
    decreases s.len(),
{
    if s.len() > 0 && !(s[0] > 0) {
        lemma_first_positive_never_zero(s.drop_first());
        if first_positive(s.drop_first()) is Some {
            let i = choose|i: int| 0 <= i < s.drop_first().len() && s.drop_first()[i] > 0;
            assert(s[i + 1] > 0);
        }
        if exists|i: int| 0 <= i < s.len() && s[i] > 0 {
            let i = choose|i: int| 0 <= i < s.len() && s[i] > 0;
            assert(s.drop_first()[i - 1] > 0);
        }
    }
}

/// Scan a sample set for the first strictly positive sample.
pub fn first_positive_sample(samples: &Vec<u64>) -> (r: Option<u64>)
    ensures
        r == first_positive(samples@),
{
    let n = samples.len();
    let mut k: usize = 0;
    proof {
        assert(samples@.skip(0) =~= samples@);
    }
    while k < n
        invariant
            k <= n,
            n == samples@.len(),
            first_positive(samples@) == first_positive(samples@.skip(k as int)),
        decreases n - k,
    {
        if samples[k] > 0 {
            proof {
                assert(samples@.skip(k as int)[0] == samples@[k as int]);
            }
            return Some(samples[k]);
        }
        proof {
            assert(samples@.skip(k as int).drop_first() =~= samples@.skip(k as int + 1));
        }
        k = k + 1;
    }
    proof {
        assert(samples@.skip(n as int) =~= Seq::<u64>::empty());
    }
    None
}

/// The accumulated noise of a delta sequence under a tick tolerance: every
/// delta strictly above the tolerance contributes its excess over the
/// tolerance; deltas at or below it are excluded entirely, not clamped.
pub open spec fn noise_sum_spec(deltas: Seq<u64>, tolerance: u64) -> int
    decreases deltas.len(),
{
    if deltas.len() == 0 {
        0
    } else {
        let rest = noise_sum_spec(deltas.drop_last(), tolerance);
        if deltas.last() > tolerance {
            rest + (deltas.last() - tolerance)
        } else {
            rest
        }
    }
}

/// The plain sum of a delta sequence.
pub open spec fn sum_spec(deltas: Seq<u64>) -> int
    decreases deltas.len(),
{
    if deltas.len() == 0 {
        0
    } else {
        sum_spec(deltas.drop_last()) + deltas.last()
    }
}

proof fn lemma_noise_sum_bounds(deltas: Seq<u64>, tolerance: u64)
    ensures
        0 <= noise_sum_spec(deltas, tolerance) <= deltas.len() * u64::MAX,
    decreases deltas.len(),
{
    if deltas.len() > 0 {
        lemma_noise_sum_bounds(deltas.drop_last(), tolerance);
        assert((deltas.len() - 1) * u64::MAX + u64::MAX == deltas.len() * u64::MAX)
            by (nonlinear_arith);
    }
}

/// Accumulate the noise of a delta sequence under a tick tolerance.
pub fn noise_sum(deltas: &Vec<u64>, tolerance: u64) -> (sum: u128)
    ensures
        sum == noise_sum_spec(deltas@, tolerance),
{
    let n = deltas.len();
    let mut acc: u128 = 0;
    let mut k: usize = 0;
    while k < n
        invariant
            k <= n,
            n == deltas@.len(),
            acc == noise_sum_spec(deltas@.take(k as int), tolerance),
        decreases n - k,
    {
        proof {
            lemma_noise_sum_bounds(deltas@.take(k as int), tolerance);
            assert(k * u64::MAX + u64::MAX <= u64::MAX * u64::MAX) by (nonlinear_arith)
                requires
                    k < u64::MAX,
            ;
            assert(deltas@.take(k as int + 1).drop_last() =~= deltas@.take(k as int));
            assert(deltas@.take(k as int + 1).last() == deltas@[k as int]);
        }
        let d: u64 = deltas[k];
        if d > tolerance {
            acc = acc + ((d - tolerance) as u128);
        }
        k = k + 1;
    }
    proof {
        assert(deltas@.take(n as int) =~= deltas@);
    }
    acc
}

/// With the tolerance at or above every observed delta, the accumulated noise
/// is exactly zero.
pub proof fn lemma_noise_sum_zero_under_tolerance(deltas: Seq<u64>, tolerance: u64)
    requires
        forall|i: int| 0 <= i < deltas.len() ==> deltas[i] <= tolerance,
    ensures
        noise_sum_spec(deltas, tolerance) == 0,
    decreases deltas.len(),
{
    if deltas.len() > 0 {
        lemma_noise_sum_zero_under_tolerance(deltas.drop_last(), tolerance);
    }
}

/// With the tolerance at zero, every delta is accumulated in full: the noise
/// equals the plain sum of the deltas.
pub proof fn lemma_noise_sum_zero_tolerance(deltas: Seq<u64>)
    ensures
        noise_sum_spec(deltas, 0) == sum_spec(deltas),
    decreases deltas.len(),
{
    if deltas.len() > 0 {
        lemma_noise_sum_zero_tolerance(deltas.drop_last());
    }
}

} // verus!
