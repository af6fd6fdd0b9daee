//! Latency statistics of a benchmark run.
//!
//! Durations are counted in nanoseconds.  The clock readings and the
//! floating-point summary (mean, deviation, rates) are the caller's; this
//! module keeps the exact integer record: every latency, the minimum, the
//! maximum, the sum, the count, the percentiles and the integer mean.
use vstd::prelude::*;
use vstd::relations::*;
use vstd::seq_lib::*;

verus! {

/// The longest duration std can hold, in nanoseconds: `u64::MAX` seconds
/// and 999 999 999 nanoseconds.
pub const MAX_DURATION_NANOS: u128 = 18_446_744_073_709_551_615_999_999_999;

/// The minimum before any latency is recorded: `u64::MAX` seconds.
pub const UNSET_MINIMUM_NANOS: u128 = 18_446_744_073_709_551_615_000_000_000;

/// The order in which latencies are ranked.
pub open spec fn ascending_order() -> spec_fn(u64, u64) -> bool {
    |x: u64, y: u64| x <= y
}

/// The latencies in ascending order.
pub open spec fn ascending(s: Seq<u64>) -> Seq<u64> {
    s.sort_by(ascending_order())
}

/// The rank of the `p`-th percentile among `len` latencies: `len * p / 100`
/// rounded down, but at most the last rank.
pub open spec fn percentile_rank(len: nat, p: nat) -> int {
    let k = (len * p) / 100;
    if k < len { k as int } else { len - 1 }
}

/// The `p`-th percentile of `s`: the latency at `percentile_rank` once `s`
/// is sorted; 0 when there is no latency.
pub open spec fn percentile_of(s: Seq<u64>, p: nat) -> u64 {
    if s.len() == 0 { 0 } else { ascending(s)[percentile_rank(s.len(), p)] }
}

/// Sorts latencies with `slice::sort_unstable`, whose documentation promises
/// an ascending order; the contract also says that the sort neither adds nor
/// loses a value.
#[verifier::external_body]
fn sort_unstable(v: &mut Vec<u64>)
    ensures
        sorted_by(final(v)@, ascending_order()),
        final(v)@.to_multiset() == old(v)@.to_multiset(),
{
    v.sort_unstable();
}

proof fn lemma_ascending_total()
    ensures
        total_ordering(ascending_order()),
{
}

/// Two ascending sequences that hold the same values are equal.
proof fn lemma_sorted_unique(a: Seq<u64>, b: Seq<u64>)
    requires
        sorted_by(a, ascending_order()),
        sorted_by(b, ascending_order()),
        a.to_multiset() == b.to_multiset(),
    ensures
        a == b,
    decreases a.len(),
{
    a.to_multiset_ensures();
    b.to_multiset_ensures();
    if a.len() == 0 {
        assert(a =~= b);
    } else {
        assert(a.contains(a[0]));
        assert(a.to_multiset().count(a[0]) > 0);
        assert(b.to_multiset().count(a[0]) > 0);
        assert(b.contains(a[0]));
        let j = choose|j: int| 0 <= j < b.len() && b[j] == a[0];
        assert(ascending_order()(b[0], b[j]) || j == 0);
        assert(b.contains(b[0]));
        assert(b.to_multiset().count(b[0]) > 0);
        assert(a.to_multiset().count(b[0]) > 0);
        assert(a.contains(b[0]));
        let i = choose|i: int| 0 <= i < a.len() && a[i] == b[0];
        assert(ascending_order()(a[0], a[i]) || i == 0);
        assert(a[0] == b[0]);
        assert(a.remove(0) =~= a.drop_first());
        assert(b.remove(0) =~= b.drop_first());
        let a1 = a.drop_first();
        let b1 = b.drop_first();
        assert(sorted_by(a1, ascending_order())) by {
            assert forall|x: int, y: int| 0 <= x < y < a1.len() implies
                #[trigger] ascending_order()(a1[x], a1[y]) by {
                assert(ascending_order()(a[x + 1], a[y + 1]));
            }
        }
        assert(sorted_by(b1, ascending_order())) by {
            assert forall|x: int, y: int| 0 <= x < y < b1.len() implies
                #[trigger] ascending_order()(b1[x], b1[y]) by {
                assert(ascending_order()(b[x + 1], b[y + 1]));
            }
        }
        lemma_sorted_unique(a1, b1);
        assert(a =~= b) by {
            assert forall|k: int| 0 <= k < a.len() implies a[k] == b[k] by {
                if k > 0 {
                    assert(a[k] == a1[k - 1]);
                    assert(b[k] == b1[k - 1]);
                }
            }
        }
    }
}

/// An ascending arrangement of `s` is `ascending(s)`.
proof fn lemma_is_ascending(s: Seq<u64>, t: Seq<u64>)
    requires
        sorted_by(t, ascending_order()),
        t.to_multiset() == s.to_multiset(),
    ensures
        t == ascending(s),
{
    lemma_ascending_total();
    s.lemma_sort_by_ensures(ascending_order());
    lemma_sorted_unique(t, ascending(s));
}

/// Percentiles never decrease as `p` grows.
pub proof fn law_percentile_monotone(s: Seq<u64>, p1: nat, p2: nat)
    requires
        p1 <= p2,
    ensures
        percentile_of(s, p1) <= percentile_of(s, p2),
{
    if s.len() > 0 {
        lemma_ascending_total();
        s.lemma_sort_by_ensures(ascending_order());
        s.to_multiset_ensures();
        ascending(s).to_multiset_ensures();
        let len = s.len();
        assert(len * p1 <= len * p2) by (nonlinear_arith)
            requires
                p1 <= p2,
        ;
        let k1 = percentile_rank(len, p1);
        let k2 = percentile_rank(len, p2);
        assert(k1 <= k2);
        if k1 < k2 {
            assert(ascending_order()(ascending(s)[k1], ascending(s)[k2]));
        }
    }
}

/// A percentile of a non-empty record is one of the recorded latencies.
pub proof fn law_percentile_is_recorded(s: Seq<u64>, p: nat)
    requires
        s.len() > 0,
    ensures
        s.contains(percentile_of(s, p)),
{
    lemma_ascending_total();
    s.lemma_sort_by_ensures(ascending_order());
    s.to_multiset_ensures();
    ascending(s).to_multiset_ensures();
    let k = percentile_rank(s.len(), p);
    let v = ascending(s)[k];
    assert(ascending(s).contains(v));
    assert(ascending(s).to_multiset().count(v) > 0);
    assert(s.to_multiset().count(v) > 0);
}

/// The sum of durations.
pub open spec fn total(s: Seq<u128>) -> nat
    decreases s.len(),
{
    if s.len() == 0 { 0 } else { total(s.drop_last()) + (s.last() as nat) }
}

/// The smaller of `UNSET_MINIMUM_NANOS` and every duration (as taking the
/// minimum of each new duration with the current minimum does).
pub open spec fn least(s: Seq<u128>) -> u128
    decreases s.len(),
{
    if s.len() == 0 {
        UNSET_MINIMUM_NANOS
    } else {
        let m = least(s.drop_last());
        if s.last() < m { s.last() } else { m }
    }
}

/// The larger of 0 and every duration.
pub open spec fn greatest(s: Seq<u128>) -> u128
    decreases s.len(),
{
    if s.len() == 0 {
        0
    } else {
        let m = greatest(s.drop_last());
        if s.last() > m { s.last() } else { m }
    }
}

proof fn lemma_least_greatest_bound(s: Seq<u128>)
    ensures
        forall|i: int| 0 <= i < s.len() ==> least(s) <= #[trigger] s[i] && s[i] <= greatest(s),
        least(s) <= UNSET_MINIMUM_NANOS,
    decreases s.len(),
{
    if s.len() > 0 {
        lemma_least_greatest_bound(s.drop_last());
        assert forall|i: int| 0 <= i < s.len() implies least(s) <= #[trigger] s[i] && s[i] <= greatest(s) by {
            if i < s.len() - 1 {
                assert(s[i] == s.drop_last()[i]);
            }
        }
    }
}

/// Every recorded duration lies between the record's minimum and maximum,
/// and the minimum is never above its starting value.
pub proof fn law_record_bounds(stats: LatencyStats)
    requires
        stats.wf(),
    ensures
        forall|i: int| 0 <= i < stats.count ==> stats.minimum <= #[trigger] stats.durations@[i]
            && stats.durations@[i] <= stats.maximum,
        stats.minimum <= UNSET_MINIMUM_NANOS,
{
    lemma_least_greatest_bound(stats.durations@);
}

/// The exact record of the latencies measured so far.
pub struct LatencyStats {
    /// Every duration recorded, whole, in the order measured.
    pub durations: Ghost<Seq<u128>>,
    /// Every latency, in nanoseconds, in the order measured.
    pub latencies: Vec<u64>,
    /// The shortest duration recorded (`UNSET_MINIMUM_NANOS` before any).
    pub minimum: u128,
    /// The longest duration recorded (0 before any).
    pub maximum: u128,
    /// The sum of the durations recorded.
    pub sum: u128,
    /// How many durations were recorded.
    pub count: usize,
}

impl LatencyStats {
    /// The record agrees with the durations recorded: one latency per
    /// duration (its low 64 bits), the count, the sum (within what a
    /// duration can hold), the minimum and the maximum.
    pub open spec fn wf(&self) -> bool {
        &&& self.count == self.durations@.len()
        &&& self.latencies@.len() == self.durations@.len()
        &&& forall|i: int| 0 <= i < self.durations@.len() ==>
                #[trigger] self.latencies@[i] == self.durations@[i] as u64
        &&& self.sum == total(self.durations@)
        &&& self.sum <= MAX_DURATION_NANOS
        &&& self.minimum == least(self.durations@)
        &&& self.maximum == greatest(self.durations@)
    }

    /// An empty record.
    pub fn new() -> (s: Self)
        ensures
            s.wf(),
            s.durations@ == Seq::<u128>::empty(),
            s.latencies@ == Seq::<u64>::empty(),
            s.minimum == UNSET_MINIMUM_NANOS,
            s.maximum == 0,
            s.sum == 0,
            s.count == 0,
    {
        LatencyStats {
            durations: Ghost(Seq::empty()),
            latencies: Vec::new(),
            minimum: UNSET_MINIMUM_NANOS,
            maximum: 0,
            sum: 0,
            count: 0,
        }
    }

    /// Records one duration of `nanos` nanoseconds.  The latency list keeps
    /// it as a `u64` (its low 64 bits, as a cast does); minimum, maximum and
    /// sum keep it whole.
    pub fn update(&mut self, nanos: u128)
        requires
            old(self).wf(),
            old(self).sum + nanos <= MAX_DURATION_NANOS,
            old(self).count < usize::MAX,
        ensures
            final(self).wf(),
            final(self).durations@ == old(self).durations@.push(nanos),
            final(self).latencies@ == old(self).latencies@.push(nanos as u64),
            final(self).minimum == if nanos < old(self).minimum { nanos } else { old(self).minimum },
            final(self).maximum == if nanos > old(self).maximum { nanos } else { old(self).maximum },
            final(self).sum == old(self).sum + nanos,
            final(self).count == old(self).count + 1,
    {
        #[verifier::truncate]
        let truncated = nanos as u64;
        self.latencies.push(truncated);
        if nanos < self.minimum {
            self.minimum = nanos;
        }
        if nanos > self.maximum {
            self.maximum = nanos;
        }
        self.sum = self.sum + nanos;
        self.count = self.count + 1;
        let ghost before = self.durations@;
        self.durations = Ghost(before.push(nanos));
        assert(self.durations@.drop_last() =~= before);
    }

    /// The `p`-th percentile of the recorded latencies (`p` in percent).
    pub fn percentile(&self, p: u64) -> (r: u64)
        ensures
            r == percentile_of(self.latencies@, p as nat),
    {
        let len = self.latencies.len();
        if len == 0 {
            return 0;
        }
        let mut sorted: Vec<u64> = Vec::new();
        let mut i: usize = 0;
        while i < len
            invariant
                len == self.latencies@.len(),
                i <= len,
                sorted@ =~= self.latencies@.subrange(0, i as int),
            decreases len - i,
        {
            sorted.push(self.latencies[i]);
            i = i + 1;
        }
        assert(sorted@ =~= self.latencies@);
        sort_unstable(&mut sorted);
        proof {
            lemma_is_ascending(self.latencies@, sorted@);
            sorted@.to_multiset_ensures();
            self.latencies@.to_multiset_ensures();
        }
        let wide_len = len as u128;
        let wide_p = p as u128;
        assert(wide_len * wide_p <= u128::MAX) by (nonlinear_arith)
            requires
                wide_len <= u64::MAX,
                wide_p <= u64::MAX,
        ;
        let k: u128 = wide_len * wide_p / 100;
        let index: usize = if k < wide_len { k as usize } else { len - 1 };
        sorted[index]
    }

    /// The integer summary of the run: the mean is the sum divided by the
    /// count read as a `u32` (rounded down, as dividing a duration does),
    /// the percentiles are the 50th, 90th and 99th, and the CPU time used is
    /// `end_cpu - start_cpu`, or 0 when the clock went backwards.
    pub fn summary(&self, start_cpu: u64, end_cpu: u64) -> (r: LatencySummary)
        requires
            self.count as u32 != 0,
        ensures
            r.message_count == self.count,
            r.average_nanos == self.sum / (self.count as u32 as u128),
            r.minimum_nanos == self.minimum,
            r.maximum_nanos == self.maximum,
            r.p50 == percentile_of(self.latencies@, 50),
            r.p90 == percentile_of(self.latencies@, 90),
            r.p99 == percentile_of(self.latencies@, 99),
            r.cpu_time_used == if end_cpu >= start_cpu { (end_cpu - start_cpu) as u64 } else { 0 },
    {
        #[verifier::truncate]
        let divisor = self.count as u32;
        LatencySummary {
            message_count: self.count,
            average_nanos: self.sum / (divisor as u128),
            minimum_nanos: self.minimum,
            maximum_nanos: self.maximum,
            p50: self.percentile(50),
            p90: self.percentile(90),
            p99: self.percentile(99),
            cpu_time_used: end_cpu.saturating_sub(start_cpu),
        }
    }
}

/// The integer results of a run; durations in nanoseconds.
pub struct LatencySummary {
    pub message_count: usize,
    pub average_nanos: u128,
    pub minimum_nanos: u128,
    pub maximum_nanos: u128,
    pub p50: u64,
    pub p90: u64,
    pub p99: u64,
    pub cpu_time_used: u64,
}


/// The `p`-th percentile of a non-empty record is the latency at index
/// `min(floor(len * p / 100), len - 1)` of the record sorted ascending:
/// with 1000 latencies the 99th percentile is the one at index 990, the
/// 90th at index 900 and the 50th at index 500; an empty record gives 0.
pub proof fn law_percentile_index(s: Seq<u64>, p: nat)
    ensures
        s.len() == 0 ==> percentile_of(s, p) == 0,
        s.len() > 0 && (s.len() * p) / 100 < s.len() ==>
            percentile_of(s, p) == ascending(s)[((s.len() * p) / 100) as int],
        s.len() > 0 && (s.len() * p) / 100 >= s.len() ==>
            percentile_of(s, p) == ascending(s)[s.len() - 1],
{
}

/// `ascending(s)` is the record sorted: the same latencies, each as often,
/// in non-decreasing order.
pub proof fn law_ascending_is_the_sorted_record(s: Seq<u64>)
    ensures
        ascending(s).to_multiset() == s.to_multiset(),
        ascending(s).len() == s.len(),
        forall|i: int, j: int| 0 <= i <= j < s.len() ==> ascending(s)[i] <= ascending(s)[j],
{
    lemma_ascending_total();
    s.lemma_sort_by_ensures(ascending_order());
    s.to_multiset_ensures();
    ascending(s).to_multiset_ensures();
    assert forall|i: int, j: int| 0 <= i <= j < s.len() implies ascending(s)[i] <= ascending(s)[j] by {
        if i < j {
            assert(ascending_order()(ascending(s)[i], ascending(s)[j]));
        }
    }
}


/// Once a duration is recorded the maximum is one of the durations, and
/// the minimum is one of them too unless every duration exceeds its
/// starting value; the sum adds one duration at a time.
pub proof fn law_record_extremes_attained(s: Seq<u128>, x: u128)
    ensures
        s.len() > 0 ==> exists|i: int| 0 <= i < s.len() && greatest(s) == s[i],
        s.len() > 0 ==> least(s) == UNSET_MINIMUM_NANOS || exists|i: int| 0 <= i < s.len() && least(s) == s[i],
        total(Seq::<u128>::empty()) == 0,
        total(s.push(x)) == total(s) + x,
    decreases s.len(),
{
    assert(s.push(x).drop_last() =~= s);
    if s.len() > 0 {
        let t = s.drop_last();
        let n = s.len() - 1;
        law_record_extremes_attained(t, x);
        assert(s[n] == s.last());
        if greatest(s) == s[n] {
            assert(0 <= n < s.len() && greatest(s) == s[n]);
        } else {
            assert(greatest(s) == greatest(t));
            if t.len() > 0 {
                let gi = choose|i: int| 0 <= i < t.len() && greatest(t) == t[i];
                assert(s[gi] == t[gi]);
                assert(0 <= gi < s.len() && greatest(s) == s[gi]);
            }
        }
        if least(s) == s[n] {
            assert(0 <= n < s.len() && least(s) == s[n]);
        } else if least(t) != UNSET_MINIMUM_NANOS {
            let li = choose|i: int| 0 <= i < t.len() && least(t) == t[i];
            assert(s[li] == t[li]);
            assert(0 <= li < s.len() && least(s) == s[li]);
        }
    }
}

} // verus!
