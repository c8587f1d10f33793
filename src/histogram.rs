use vstd::prelude::*;
use vstd::arithmetic::div_mod::lemma_fundamental_div_mod;

verus! {

/// Number of buckets in every histogram.
pub const BUCKET_COUNT: usize = 10;

/// A value range `[lower, upper)` and how many samples fell in it.
///
/// The edges are in tenths of the samples' unit, so that the ten buckets over
/// `[0, max]` all have the exact width `max / 10`.
#[derive(Clone, Copy, Debug, PartialEq, Eq, Structural)]
pub struct Bucket {
    /// Lower edge, in tenths of the samples' unit.
    pub lower: u128,
    /// Upper edge, in tenths of the samples' unit.
    pub upper: u128,
    pub count: u64,
}

impl Bucket {
    /// The middle of the range, in tenths, rounded down.
    pub fn center(&self) -> (r: u128)
        requires
            self.lower <= self.upper,
        ensures
            r == (self.lower + self.upper) / 2,
    {
        self.lower + (self.upper - self.lower) / 2
    }

    /// The length of the range, in tenths.
    pub fn width(&self) -> (r: u128)
        requires
            self.lower <= self.upper,
        ensures
            r == self.upper - self.lower,
    {
        self.upper - self.lower
    }
}

/// The `i`-th edge when `[0, max]` is cut into ten equal parts, in tenths of
/// the samples' unit.
pub open spec fn edge(i: int, max: u64) -> int {
    i * max
}

/// The bucket that sample `s` falls in: the one whose range holds it, the
/// last one for every sample from `max` up.
pub open spec fn bucket_of(s: u64, max: u64) -> int {
    if s >= max {
        BUCKET_COUNT - 1
    } else {
        (BUCKET_COUNT * s) / (max as int)
    }
}

/// How many of `samples` fall in bucket `i`.
pub open spec fn count_in(samples: Seq<u64>, max: u64, i: int) -> nat
    decreases samples.len(),
{
    if samples.len() == 0 {
        0
    } else {
        count_in(samples.drop_last(), max, i) + if bucket_of(samples.last(), max) == i { 1nat } else { 0nat }
    }
}

/// The histogram of `samples` over `[0, max]`.
pub open spec fn histogram(samples: Seq<u64>, max: u64) -> Seq<Bucket> {
    Seq::new(
        BUCKET_COUNT as nat,
        |i: int|
            Bucket {
                lower: edge(i, max) as u128,
                upper: edge(i + 1, max) as u128,
                count: count_in(samples, max, i) as u64,
            },
    )
}

/// The largest of `samples`, or zero when there are none.
pub open spec fn seq_max(samples: Seq<u64>) -> u64
    decreases samples.len(),
{
    if samples.len() == 0 {
        0
    } else {
        let m = seq_max(samples.drop_last());
        if samples.last() > m { samples.last() } else { m }
    }
}

/// The axis end that a histogram of `samples` against `max` uses: none for no samples.
pub open spec fn effective_max(samples: Seq<u64>, max: u64) -> u64 {
    if samples.len() == 0 { 0 } else { max }
}

/// Sum of the counts of the first `n` buckets.
pub open spec fn counts_sum(samples: Seq<u64>, max: u64, n: int) -> nat
    decreases n,
{
    if n <= 0 {
        0
    } else {
        counts_sum(samples, max, n - 1) + count_in(samples, max, n - 1)
    }
}

/// A histogram has `BUCKET_COUNT` buckets that tile `[0, max]` in order, each
/// `max / 10` wide, with counts that add up to the number of samples; with no
/// samples every bucket is empty.
pub proof fn lemma_histogram_laws(samples: Seq<u64>, max: u64)
    requires
        samples.len() <= u64::MAX,
    ensures
        histogram(samples, max).len() == BUCKET_COUNT,
        histogram(samples, max)[0].lower == 0,
        histogram(samples, max)[BUCKET_COUNT - 1].upper == BUCKET_COUNT * max,
        forall|i: int| 0 <= i < BUCKET_COUNT ==> (#[trigger] histogram(samples, max)[i]).upper - histogram(samples, max)[i].lower == max,
        forall|i: int| 0 <= i < BUCKET_COUNT - 1 ==> (#[trigger] histogram(samples, max)[i]).upper == histogram(samples, max)[i + 1].lower,
        forall|i: int| 0 <= i < BUCKET_COUNT ==> (#[trigger] histogram(samples, max)[i]).count == count_in(samples, max, i),
        counts_sum(samples, max, BUCKET_COUNT as int) == samples.len(),
        samples.len() == 0 ==> forall|i: int| 0 <= i < BUCKET_COUNT ==> (#[trigger] histogram(samples, max)[i]).count == 0,
{
    let h = histogram(samples, max);
    assert forall|i: int| 0 <= i < BUCKET_COUNT implies (#[trigger] h[i]).upper - h[i].lower == max
        && h[i].count == count_in(samples, max, i) by {
        lemma_edge_fits(i, max);
        lemma_edge_fits(i + 1, max);
        lemma_count_in_bound(samples, max, i);
        assert((i + 1) * max == i * max + max) by (nonlinear_arith);
    }
    assert forall|i: int| 0 <= i < BUCKET_COUNT - 1 implies (#[trigger] h[i]).upper == h[i + 1].lower by {
        lemma_edge_fits(i + 1, max);
    }
    lemma_edge_fits(0, max);
    lemma_edge_fits(BUCKET_COUNT as int, max);
    lemma_counts_sum_to_len(samples, max);
}

proof fn lemma_edge_fits(i: int, max: u64)
    requires
        0 <= i <= BUCKET_COUNT,
    ensures
        0 <= edge(i, max) <= BUCKET_COUNT * max <= u128::MAX,
{
    assert(0 <= i * max <= (BUCKET_COUNT as int) * max) by (nonlinear_arith)
        requires
            0 <= i <= BUCKET_COUNT,
            0 <= max,
    ;
}

/// A sample falls in bucket `i` exactly when `i`'s range holds it, the last
/// bucket's range being open above: in tenths, `lower <= 10 * s` and, but for
/// the last bucket, `10 * s < upper`.
pub proof fn lemma_bucket_of(s: u64, max: u64, i: int)
    requires
        max > 0,
        0 <= i < BUCKET_COUNT,
    ensures
        0 <= bucket_of(s, max) < BUCKET_COUNT,
        bucket_of(s, max) == i <==> (edge(i, max) <= BUCKET_COUNT * s
            && (i == BUCKET_COUNT - 1 || BUCKET_COUNT * s < edge(i + 1, max))),
{
    let t = (BUCKET_COUNT * s) as int;
    let m = max as int;
    let b = bucket_of(s, max);
    if s >= max {
        assert(i * m <= t) by (nonlinear_arith)
            requires
                0 <= i < 10,
                t == 10 * s,
                s >= m,
                m > 0,
        ;
        assert(i < 9 ==> t >= (i + 1) * m) by (nonlinear_arith)
            requires
                0 <= i < 10,
                t == 10 * s,
                s >= m,
                m > 0,
        ;
    } else {
        lemma_fundamental_div_mod(t, m);
        let r = t % m;
        assert(t == m * b + r && 0 <= r < m);
        assert(0 <= b < 10 && b * m <= t < (b + 1) * m) by (nonlinear_arith)
            requires
                t == m * b + r,
                0 <= r < m,
                t == 10 * s,
                s < m,
                0 <= s,
        ;
        assert((i * m <= t && (i == 9 || t < (i + 1) * m)) ==> i == b) by (nonlinear_arith)
            requires
                b * m <= t < (b + 1) * m,
                0 <= i < 10,
                0 <= b < 10,
                m > 0,
        ;
    }
}

proof fn lemma_bucket_in_range(s: u64, max: u64)
    ensures
        0 <= bucket_of(s, max) < BUCKET_COUNT,
{
    if max > 0 {
        lemma_bucket_of(s, max, 0);
    }
}

proof fn lemma_count_in_bound(samples: Seq<u64>, max: u64, i: int)
    ensures
        count_in(samples, max, i) <= samples.len(),
    decreases samples.len(),
{
    if samples.len() > 0 {
        lemma_count_in_bound(samples.drop_last(), max, i);
    }
}

proof fn lemma_counts_sum_push(samples: Seq<u64>, x: u64, max: u64, n: int)
    requires
        0 <= n <= BUCKET_COUNT,
    ensures
        counts_sum(samples.push(x), max, n) == counts_sum(samples, max, n) + if 0 <= bucket_of(x, max) < n { 1nat } else { 0nat },
    decreases n,
{
    let t = samples.push(x);
    assert(t.drop_last() =~= samples);
    if n > 0 {
        lemma_counts_sum_push(samples, x, max, n - 1);
    }
}

/// The bucket counts add up to the number of samples.
pub proof fn lemma_counts_sum_to_len(samples: Seq<u64>, max: u64)
    ensures
        counts_sum(samples, max, BUCKET_COUNT as int) == samples.len(),
    decreases samples.len(),
{
    if samples.len() == 0 {
        lemma_counts_sum_empty(samples, max, BUCKET_COUNT as int);
    } else {
        let s = samples.drop_last();
        lemma_counts_sum_to_len(s, max);
        lemma_counts_sum_push(s, samples.last(), max, BUCKET_COUNT as int);
        lemma_bucket_in_range(samples.last(), max);
        assert(s.push(samples.last()) =~= samples);
    }
}

proof fn lemma_counts_sum_empty(samples: Seq<u64>, max: u64, n: int)
    requires
        samples.len() == 0,
    ensures
        counts_sum(samples, max, n) == 0,
    decreases n,
{
    if n > 0 {
        lemma_counts_sum_empty(samples, max, n - 1);
    }
}

fn edge_at(i: u64, max: u64) -> (r: u128)
    requires
        i <= BUCKET_COUNT,
    ensures
        r == edge(i as int, max),
{
    proof {
        lemma_edge_fits(i as int, max);
    }
    (i as u128) * (max as u128)
}

fn bucket_index(s: u64, max: u64) -> (r: usize)
    ensures
        r == bucket_of(s, max),
        r < BUCKET_COUNT,
{
    proof {
        lemma_bucket_in_range(s, max);
    }
    if s >= max {
        BUCKET_COUNT - 1
    } else {
        ((BUCKET_COUNT as u128) * (s as u128) / (max as u128)) as usize
    }
}

/// The histogram of `samples` over `[0, max]`: ten buckets of width
/// `max / 10`, each counting the samples `s` with `lower <= 10 * s < upper`
/// (edges in tenths); the last also takes every sample from its lower edge
/// up. With no samples every bucket is `[0, 0]` with count zero.
pub fn build_with_max(samples: &Vec<u64>, max: u64) -> (r: Vec<Bucket>)
    ensures
        r@ == histogram(samples@, effective_max(samples@, max)),
{
    let m: u64 = if samples.len() == 0 { 0 } else { max };
    let mut counts: Vec<u64> = Vec::new();
    let mut k: usize = 0;
    while k < BUCKET_COUNT
        invariant
            k <= BUCKET_COUNT,
            counts@.len() == k,
            forall|i: int| 0 <= i < k ==> counts@[i] == 0,
        decreases BUCKET_COUNT - k,
    {
        counts.push(0);
        k = k + 1;
    }
    let mut j: usize = 0;
    while j < samples.len()
        invariant
            j <= samples@.len(),
            counts@.len() == BUCKET_COUNT,
            forall|i: int| 0 <= i < BUCKET_COUNT ==> counts@[i] == count_in(samples@.take(j as int), m, i),
        decreases samples@.len() - j,
    {
        let s = samples[j];
        let b = bucket_index(s, m);
        proof {
            assert(samples@.take(j as int + 1).drop_last() =~= samples@.take(j as int));
            lemma_count_in_bound(samples@.take(j as int), m, b as int);
        }
        let c = counts[b];
        counts.set(b, c + 1);
        j = j + 1;
    }
    proof {
        assert(samples@.take(samples@.len() as int) =~= samples@);
    }
    let mut out: Vec<Bucket> = Vec::new();
    let mut i: usize = 0;
    while i < BUCKET_COUNT
        invariant
            i <= BUCKET_COUNT,
            counts@.len() == BUCKET_COUNT,
            m == effective_max(samples@, max),
            forall|x: int| 0 <= x < BUCKET_COUNT ==> counts@[x] == count_in(samples@, m, x),
            out@ =~= histogram(samples@, m).take(i as int),
        decreases BUCKET_COUNT - i,
    {
        proof {
            lemma_count_in_bound(samples@, m, i as int);
        }
        let lower = edge_at(i as u64, m);
        let upper = edge_at((i + 1) as u64, m);
        out.push(Bucket { lower, upper, count: counts[i] });
        i = i + 1;
    }
    out
}

/// The largest sample, or zero when there is none.
pub fn max_sample(samples: &Vec<u64>) -> (r: u64)
    ensures
        r == seq_max(samples@),
{
    let mut m: u64 = 0;
    let mut j: usize = 0;
    while j < samples.len()
        invariant
            j <= samples@.len(),
            m == seq_max(samples@.take(j as int)),
        decreases samples@.len() - j,
    {
        proof {
            assert(samples@.take(j as int + 1).drop_last() =~= samples@.take(j as int));
        }
        if samples[j] > m {
            m = samples[j];
        }
        j = j + 1;
    }
    proof {
        assert(samples@.take(samples@.len() as int) =~= samples@);
    }
    m
}

/// The histogram of `samples` over `[0, largest sample]`.
pub fn build(samples: &Vec<u64>) -> (r: Vec<Bucket>)
    ensures
        r@ == histogram(samples@, seq_max(samples@)),
{
    let m = max_sample(samples);
    let r = build_with_max(samples, m);
    proof {
        if samples@.len() == 0 {
            assert(seq_max(samples@) == 0);
        }
    }
    r
}

} // verus!
