//! Latency percentiles of the soak harness: the samples are sorted in
//! place and p50 / p95 / p99 are read off by nearest rank.
use vstd::prelude::*;

verus! {

/// `s` is in ascending order.
pub open spec fn is_sorted(s: Seq<u128>) -> bool {
    forall|a: int, b: int| 0 <= a <= b < s.len() ==> s[a] <= s[b]
}

/// The nearest-rank position of the `pct`-th percentile among `n`
/// ascending samples: the `⌈n·pct/100⌉`-th sample, counted from one.
pub open spec fn nearest_rank(n: nat, pct: nat) -> int {
    (n * pct + 99) / 100 - 1
}

proof fn lemma_rank_in_range(n: nat, pct: nat)
    requires
        n >= 1,
        1 <= pct <= 100,
    ensures
        0 <= nearest_rank(n, pct) < n,
{
    assert(n * pct >= 1 && n * pct <= n * 100) by (nonlinear_arith)
        requires
            n >= 1,
            1 <= pct <= 100,
    ;
    assert((n * pct + 99) / 100 >= 1);
    assert((n * pct + 99) / 100 <= n);
}

fn rank_index(n: usize, pct: u128) -> (i: usize)
    requires
        n >= 1,
        1 <= pct <= 100,
    ensures
        i == nearest_rank(n as nat, pct as nat),
        i < n,
{
    proof {
        lemma_rank_in_range(n as nat, pct as nat);
        assert((n as u128) * pct <= (n as u128) * 100) by (nonlinear_arith)
            requires
                pct <= 100,
        ;
    }
    let r: u128 = ((n as u128) * pct + 99) / 100 - 1;
    r as usize
}

/// Sorts `v` into ascending order, keeping its samples.
fn sort_samples(v: &mut Vec<u128>)
    ensures
        is_sorted(final(v)@),
        final(v)@.to_multiset() == old(v)@.to_multiset(),
{
    broadcast use vstd::seq_lib::group_to_multiset_ensures;

    let n = v.len();
    if n < 2 {
        return;
    }
    for i in 1..n
        invariant
            n == v@.len(),
            v@.to_multiset() == old(v)@.to_multiset(),
            forall|a: int, b: int| 0 <= a <= b < i ==> v@[a] <= v@[b],
    {
        let mut j: usize = i;
        while j > 0 && v[j - 1] > v[j]
            invariant
                n == v@.len(),
                1 <= i < n,
                j <= i,
                v@.to_multiset() == old(v)@.to_multiset(),
                forall|a: int, b: int| 0 <= a <= b < j ==> v@[a] <= v@[b],
                forall|a: int, b: int| j <= a <= b <= i ==> v@[a] <= v@[b],
                forall|a: int, b: int| 0 <= a < j && j < b <= i ==> v@[a] <= v@[b],
            decreases j,
        {
            let x = v[j - 1];
            let y = v[j];
            let ghost s0 = v@;
            v.set(j - 1, y);
            v.set(j, x);
            proof {
                assert(v@ == s0.update(j - 1, y).update(j as int, x));
                broadcast use vstd::multiset::group_multiset_axioms;
                let s1 = s0.update(j - 1, y);
                assert(s1[j as int] == y);
                vstd::seq_lib::to_multiset_update(s0, j - 1, y);
                vstd::seq_lib::to_multiset_update(s1, j as int, x);
                vstd::seq_lib::to_multiset_contains(s0, x);
                vstd::seq_lib::to_multiset_contains(s0, y);
                assert(s0.contains(x) && s0.contains(y));
                assert(v@.to_multiset() =~= s0.to_multiset());
            }
            j = j - 1;
        }
    }
}

/// Sorts the samples in place and returns their 50th, 95th and 99th
/// percentiles by nearest rank; all zero when there are no samples.
pub fn compute_latency_percentiles(samples: &mut Vec<u128>) -> (p: (u128, u128, u128))
    ensures
        is_sorted(final(samples)@),
        final(samples)@.to_multiset() == old(samples)@.to_multiset(),
        old(samples)@.len() == 0 ==> p == (0u128, 0u128, 0u128),
        old(samples)@.len() > 0 ==> {
            let s = final(samples)@;
            let n = s.len();
            &&& p.0 == s[nearest_rank(n, 50)]
            &&& p.1 == s[nearest_rank(n, 95)]
            &&& p.2 == s[nearest_rank(n, 99)]
        },
{
    if samples.len() == 0 {
        return (0, 0, 0);
    }
    sort_samples(samples);
    proof {
        broadcast use vstd::seq_lib::group_to_multiset_ensures;
        vstd::seq_lib::to_multiset_len(samples@);
        vstd::seq_lib::to_multiset_len(old(samples)@);
    }
    let n = samples.len();
    let p50 = samples[rank_index(n, 50)];
    let p95 = samples[rank_index(n, 95)];
    let p99 = samples[rank_index(n, 99)];
    (p50, p95, p99)
}

// ---------------------------------------------------------------------
// Laws
// ---------------------------------------------------------------------

/// Ranks grow with the percentile, so on sorted samples
/// p50 ≤ p95 ≤ p99.
pub proof fn law_percentiles_are_ordered(s: Seq<u128>)
    requires
        is_sorted(s),
        s.len() >= 1,
    ensures
        s[nearest_rank(s.len(), 50)] <= s[nearest_rank(s.len(), 95)],
        s[nearest_rank(s.len(), 95)] <= s[nearest_rank(s.len(), 99)],
{
    let n = s.len();
    lemma_rank_in_range(n, 50);
    lemma_rank_in_range(n, 95);
    lemma_rank_in_range(n, 99);
    assert(n * 50 <= n * 95 && n * 95 <= n * 99) by (nonlinear_arith);
}

/// With one sample, every percentile is that sample.
pub proof fn law_single_sample_is_every_percentile(pct: nat)
    requires
        1 <= pct <= 100,
    ensures
        nearest_rank(1, pct) == 0,
{
}

/// With a hundred samples, the p-th percentile is the p-th sample.
pub proof fn law_hundred_samples_rank_by_percent(pct: nat)
    requires
        1 <= pct <= 100,
    ensures
        nearest_rank(100, pct) == pct - 1,
{
    assert(100 * pct == pct * 100) by (nonlinear_arith);
}

} // verus!
