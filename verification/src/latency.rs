//! The cross-core latency sweep: reduction of one ping-pong run to an average
//! one-way latency, the median-of-three rule that discards an outlier run,
//! the triangular core-pair plan, and the latency matrix the sweep fills.

use vstd::prelude::*;

verus! {

/// The average one-way latency in nanoseconds of one ping-pong run: the
/// elapsed wall time divided by the number of round trips, halved.
pub open spec fn one_way_latency_spec(elapsed_nanos: u128, round_trips: u32) -> int
    recommends
        round_trips > 0,
{
    (elapsed_nanos as int / round_trips as int) / 2
}

/// Reduce one ping-pong run to its average one-way latency in nanoseconds.
pub fn one_way_latency(elapsed_nanos: u128, round_trips: u32) -> (latency: u64)
    requires
        round_trips > 0,
        one_way_latency_spec(elapsed_nanos, round_trips) <= u64::MAX,
    ensures
        latency == one_way_latency_spec(elapsed_nanos, round_trips),
{
    ((elapsed_nanos / (round_trips as u128)) / 2) as u64
}

/// The middle value of three: the run retained for a core pair, which
/// discards a single outlier run without averaging in its noise.
pub open spec fn median_of_three_spec(a: u64, b: u64, c: u64) -> u64 {
    if a <= b {
        if b <= c {
            b
        } else if a <= c {
            c
        } else {
            a
        }
    } else {
        if a <= c {
            a
        } else if b <= c {
            c
        } else {
            b
        }
    }
}

/// Reduce the three runs taken for one core pair to their middle value.
pub fn median_of_three(a: u64, b: u64, c: u64) -> (m: u64)
    ensures
        m == median_of_three_spec(a, b, c),
{
    if a <= b {
        if b <= c {
            b
        } else if a <= c {
            c
        } else {
            a
        }
    } else {
        if a <= c {
            a
        } else if b <= c {
            c
        } else {
            b
        }
    }
}

/// The value a pair retains lies between the least and the greatest of its
/// three runs; in particular, when every run measured a strictly positive
/// latency, the retained value is strictly positive.
pub proof fn lemma_median_of_three_bounds(a: u64, b: u64, c: u64)
    ensures
        median_of_three_spec(a, b, c) >= a || median_of_three_spec(a, b, c) >= b,
        median_of_three_spec(a, b, c) <= a || median_of_three_spec(a, b, c) <= b,
        a > 0 && b > 0 && c > 0 ==> median_of_three_spec(a, b, c) > 0,
{
}

/// The square nanosecond latency matrix filled by the sweep. An entry is a
/// measured latency only below the diagonal, at a row strictly greater than
/// its column; the diagonal and the upper triangle stay at the zero sentinel.
pub struct LatencyMatrix {
    cells: Vec<Vec<u64>>,
}

impl LatencyMatrix {
    /// The number of enumerated cores the matrix covers.
    pub closed spec fn dim(&self) -> nat {
        self.cells@.len()
    }

    /// The entry for the pair whose later-enumerated core is `row` and whose
    /// earlier-enumerated core is `col`.
    pub closed spec fn entry(&self, row: int, col: int) -> u64 {
        self.cells@[row]@[col]
    }

    /// The matrix is square, and only the lower triangle below the diagonal
    /// ever holds a measurement.
    pub closed spec fn wf(&self) -> bool {
        &&& forall|r: int|
            0 <= r < self.dim() ==> (#[trigger] self.cells@[r])@.len() == self.dim()
        &&& forall|r: int, c: int|
            0 <= r < self.dim() && 0 <= c < self.dim() && c >= r ==> self.entry(r, c) == 0
    }

    /// A fresh matrix for `n` cores, every entry at the zero sentinel.
    pub fn new(n: usize) -> (m: LatencyMatrix)
        ensures
            m.wf(),
            m.dim() == n,
            forall|r: int, c: int| 0 <= r < n && 0 <= c < n ==> m.entry(r, c) == 0,
    {
        let mut cells: Vec<Vec<u64>> = Vec::new();
        let mut r: usize = 0;
        while r < n
            invariant
                r <= n,
                cells@.len() == r,
                forall|i: int| 0 <= i < r ==> (#[trigger] cells@[i])@.len() == n,
                forall|i: int, j: int|
                    0 <= i < r && 0 <= j < n ==> #[trigger] cells@[i]@[j] == 0,
            decreases n - r,
        {
            let mut row: Vec<u64> = Vec::new();
            let mut c: usize = 0;
            while c < n
                invariant
                    c <= n,
                    row@.len() == c,
                    forall|j: int| 0 <= j < c ==> row@[j] == 0,
                decreases n - c,
            {
                row.push(0);
                c = c + 1;
            }
            cells.push(row);
            r = r + 1;
        }
        LatencyMatrix { cells }
    }

    /// Record the measurement a pair retained: the middle of its three runs,
    /// stored below the diagonal at the later core's row. Every other entry
    /// is left as it was.
    pub fn record(&mut self, row: usize, col: usize, run0: u64, run1: u64, run2: u64)
        requires
            old(self).wf(),
            col < row < old(self).dim(),
        ensures
            final(self).wf(),
            final(self).dim() == old(self).dim(),
            final(self).entry(row as int, col as int) == median_of_three_spec(
                run0,
                run1,
                run2,
            ),
            forall|r: int, c: int|
                0 <= r < old(self).dim() && 0 <= c < old(self).dim() && !(r == row && c == col)
                    ==> final(self).entry(r, c) == old(self).entry(r, c),
    {
        let m: u64 = median_of_three(run0, run1, run2);
        self.cells[row][col] = m;
        proof {
            assert forall|r: int|
                0 <= r < self.dim() implies (#[trigger] self.cells@[r])@.len() == self.dim() by {
                if r != row {
                    assert(self.cells@[r] == old(self).cells@[r]);
                }
            }
            assert forall|r: int, c: int|
                0 <= r < self.dim() && 0 <= c < self.dim() && !(r == row && c == col)
                    implies self.entry(r, c) == old(self).entry(r, c) by {
                if r != row {
                    assert(self.cells@[r] == old(self).cells@[r]);
                }
            }
        }
    }

    /// Read the entry for a pair of enumerated cores.
    pub fn get(&self, row: usize, col: usize) -> (v: u64)
        requires
            self.wf(),
            row < self.dim(),
            col < self.dim(),
        ensures
            v == self.entry(row as int, col as int),
    {
        self.cells[row][col]
    }

    /// The number of cores the matrix covers.
    pub fn size(&self) -> (n: usize)
        ensures
            n == self.dim(),
    {
        self.cells.len()
    }
}

/// Reduce a completed sweep to its matrix: for each planned pair, the middle
/// of the pair's three runs is recorded below the diagonal at the
/// later-enumerated core's row; every entry no pair measured stays at the
/// zero sentinel.
pub fn fill_matrix(n: usize, pairs: &Vec<(usize, usize)>, runs: &Vec<(u64, u64, u64)>) -> (m:
    LatencyMatrix)
    requires
        runs@.len() == pairs@.len(),
        forall|k: int| 0 <= k < pairs@.len() ==> (#[trigger] pairs@[k]).0 < pairs@[k].1 < n,
        forall|k1: int, k2: int|
            0 <= k1 < k2 < pairs@.len() ==> pair_before(#[trigger] pairs@[k1], #[trigger] pairs@[k2]),
    ensures
        m.wf(),
        m.dim() == n,
        forall|k: int|
            0 <= k < pairs@.len() ==> m.entry((#[trigger] pairs@[k]).1 as int, pairs@[k].0 as int)
                == median_of_three_spec(runs@[k].0, runs@[k].1, runs@[k].2),
        forall|r: int, c: int|
            0 <= r < n && 0 <= c < n && (forall|k: int|
                0 <= k < pairs@.len() ==> #[trigger] pairs@[k] != ((c as usize, r as usize)))
                ==> m.entry(r, c) == 0,
{
    let mut m = LatencyMatrix::new(n);
    let total = pairs.len();
    let mut idx: usize = 0;
    while idx < total
        invariant
            idx <= total,
            total == pairs@.len(),
            runs@.len() == pairs@.len(),
            forall|k: int| 0 <= k < pairs@.len() ==> (#[trigger] pairs@[k]).0 < pairs@[k].1 < n,
            forall|k1: int, k2: int|
                0 <= k1 < k2 < pairs@.len() ==> pair_before(
                    #[trigger] pairs@[k1],
                    #[trigger] pairs@[k2],
                ),
            m.wf(),
            m.dim() == n,
            forall|k: int|
                0 <= k < idx ==> m.entry((#[trigger] pairs@[k]).1 as int, pairs@[k].0 as int)
                    == median_of_three_spec(runs@[k].0, runs@[k].1, runs@[k].2),
            forall|r: int, c: int|
                0 <= r < n && 0 <= c < n && (forall|k: int|
                    0 <= k < idx ==> #[trigger] pairs@[k] != ((c as usize, r as usize))) ==> m.entry(
                    r,
                    c,
                ) == 0,
        decreases total - idx,
    {
        let (low, high) = pairs[idx];
        let (run0, run1, run2) = runs[idx];
        m.record(high, low, run0, run1, run2);
        proof {
            assert forall|k: int| 0 <= k < idx + 1 implies m.entry(
                (#[trigger] pairs@[k]).1 as int,
                pairs@[k].0 as int,
            ) == median_of_three_spec(runs@[k].0, runs@[k].1, runs@[k].2) by {
                if k < idx {
                    assert(pair_before(pairs@[k], pairs@[idx as int]));
                }
            }
        }
        idx = idx + 1;
    }
    m
}

/// One core pair comes before another in the sweep plan's enumeration order.
pub open spec fn pair_before(p: (usize, usize), q: (usize, usize)) -> bool {
    p.0 < q.0 || (p.0 == q.0 && p.1 < q.1)
}

/// The sweep plan: every pair of distinct enumerated cores, each pair taken
/// exactly once with its earlier core first, in enumeration order.
pub fn core_pairs(n: usize) -> (pairs: Vec<(usize, usize)>)
    ensures
        forall|k: int|
            0 <= k < pairs@.len() ==> (#[trigger] pairs@[k]).0 < pairs@[k].1 < n,
        forall|i: usize, j: usize| i < j < n ==> pairs@.contains((i, j)),
        forall|k1: int, k2: int|
            0 <= k1 < k2 < pairs@.len() ==> pair_before(#[trigger] pairs@[k1], #[trigger] pairs@[k2]),
{
    let mut pairs: Vec<(usize, usize)> = Vec::new();
    let mut i: usize = 0;
    while i < n
        invariant
            i <= n,
            forall|k: int|
                0 <= k < pairs@.len() ==> (#[trigger] pairs@[k]).0 < pairs@[k].1 < n,
            forall|k: int| 0 <= k < pairs@.len() ==> (#[trigger] pairs@[k]).0 < i,
            forall|a: usize, b: usize| a < i && a < b < n ==> pairs@.contains((a, b)),
            forall|k1: int, k2: int|
                0 <= k1 < k2 < pairs@.len() ==> pair_before(#[trigger] pairs@[k1], #[trigger] pairs@[k2]),
        decreases n - i,
    {
        let mut j: usize = i + 1;
        while j < n
            invariant
                i < j <= n || (i + 1 > n && j == i + 1),
                i < n,
                forall|k: int|
                    0 <= k < pairs@.len() ==> (#[trigger] pairs@[k]).0 < pairs@[k].1 < n,
                forall|k: int| 0 <= k < pairs@.len() ==> (#[trigger] pairs@[k]).0 <= i,
                forall|a: usize, b: usize| a < i && a < b < n ==> pairs@.contains((a, b)),
                forall|b: usize| i < b < j ==> pairs@.contains((i, b)),
                forall|k1: int, k2: int|
                    0 <= k1 < k2 < pairs@.len() ==> pair_before(#[trigger] pairs@[k1], #[trigger] pairs@[k2]),
                forall|k: int|
                    0 <= k < pairs@.len() ==> ((#[trigger] pairs@[k]).0 < i || pairs@[k].1 < j),
            decreases n - j,
        {
            let ghost prev = pairs@;
            pairs.push((i, j));
            proof {
                assert forall|a: usize, b: usize| a < i && a < b < n implies pairs@.contains(
                    (a, b),
                ) by {
                    assert(prev.contains((a, b)));
                    let k = choose|k: int| 0 <= k < prev.len() && prev[k] == (a, b);
                    assert(pairs@[k] == (a, b));
                }
                assert forall|b: usize| i < b < j + 1 implies pairs@.contains((i, b)) by {
                    if b < j {
                        assert(prev.contains((i, b)));
                        let k = choose|k: int| 0 <= k < prev.len() && prev[k] == (i, b);
                        assert(pairs@[k] == (i, b));
                    } else {
                        assert(pairs@[prev.len() as int] == (i, j));
                    }
                }
            }
            j = j + 1;
        }
        i = i + 1;
    }
    pairs
}

} // verus!
