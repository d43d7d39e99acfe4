//! Dynamic tip: the 75th percentile of recent prioritization fees, with a floor.

use vstd::prelude::*;
use vstd::relations::{sorted_by, total_ordering};
use vstd::seq_lib::lemma_sorted_unique;

verus! {

/// The tip paid when the network reports no fees, and the least tip ever paid.
pub const BASELINE_TIP_LAMPORTS: u64 = 10_000;

/// The order in which fees are ranked: ascending.
pub open spec fn fee_order() -> spec_fn(u64, u64) -> bool {
    |a: u64, b: u64| a <= b
}

/// The fees in ascending order.
pub open spec fn ranked_fees(fees: Seq<u64>) -> Seq<u64> {
    fees.sort_by(fee_order())
}

/// The rank of the 75th percentile among `n` ranked fees: `floor(n * 0.75)`.
pub open spec fn percentile_75_rank(n: nat) -> nat {
    (3 * n) / 4
}

/// The tip for a list of recent fees: the baseline when there are none, else the
/// 75th-percentile fee raised to the baseline if it lies below it.
pub open spec fn dynamic_tip(fees: Seq<u64>) -> u64 {
    if fees.len() == 0 {
        BASELINE_TIP_LAMPORTS
    } else {
        let p75 = ranked_fees(fees)[percentile_75_rank(fees.len()) as int];
        if p75 >= BASELINE_TIP_LAMPORTS {
            p75
        } else {
            BASELINE_TIP_LAMPORTS
        }
    }
}

proof fn lemma_fee_order_total()
    ensures
        total_ordering(fee_order()),
{
}

/// Sorts the fees in ascending order.
pub fn rank_fees(fees: &Vec<u64>) -> (ranked: Vec<u64>)
    ensures
        ranked@ == ranked_fees(fees@),
        sorted_by(ranked@, fee_order()),
        ranked@.to_multiset() == fees@.to_multiset(),
{
    let mut out: Vec<u64> = Vec::new();
    let n = fees.len();
    proof {
        assert(out@ =~= fees@.take(0));
    }
    for i in 0..n
        invariant
            n == fees.len(),
            out.len() == i,
            sorted_by(out@, fee_order()),
            out@.to_multiset() == fees@.take(i as int).to_multiset(),
    {
        let x = fees[i];
        let mut j: usize = 0;
        while j < out.len() && out[j] <= x
            invariant
                j <= out.len(),
                forall|k: int| 0 <= k < j ==> out@[k] <= x,
            decreases out.len() - j,
        {
            j = j + 1;
        }
        proof {
            broadcast use vstd::seq_lib::group_to_multiset_ensures;
            assert(fees@.take(i + 1) =~= fees@.take(i as int).push(x));
            assert(j < out.len() ==> out@[j as int] > x);
        }
        let ghost prev = out@;
        out.insert(j, x);
        proof {
            broadcast use vstd::seq_lib::group_to_multiset_ensures;
            prev.insert_ensures(j as int, x);
            assert forall|a: int, b: int| 0 <= a < b < out@.len() implies #[trigger] (fee_order())(
                out@[a],
                out@[b],
            ) by {
                if b < j {
                } else if a > j {
                    assert(out@[a] == prev[a - 1]);
                    assert(out@[b] == prev[b - 1]);
                } else if a == j {
                    assert(out@[b] == prev[b - 1]);
                    assert(prev[j as int] > x);
                    assert((fee_order())(prev[j as int], prev[b - 1]) || b - 1 == j);
                } else {
                    // a < j <= b
                    if b == j {
                    } else {
                        assert(out@[b] == prev[b - 1]);
                        assert(prev[j as int] > x);
                        assert((fee_order())(prev[j as int], prev[b - 1]) || b - 1 == j);
                    }
                }
            }
        }
    }
    proof {
        assert(fees@.take(n as int) =~= fees@);
        lemma_fee_order_total();
        fees@.lemma_sort_by_ensures(fee_order());
        lemma_sorted_unique(out@, ranked_fees(fees@), fee_order());
    }
    out
}

/// The rank of the 75th percentile among `n` fees, `floor(n * 0.75)`, computed in
/// integers; the floating-point product is exact, and gives the same rank, for any
/// list that fits in memory (fewer than 2^51 entries).
pub fn percentile_75_index(n: usize) -> (idx: usize)
    ensures
        idx == percentile_75_rank(n as nat),
        n > 0 ==> idx < n,
{
    let q = n / 4;
    let r = n % 4;
    let idx = 3 * q + (3 * r) / 4;
    assert(idx == (3 * n) / 4) by (nonlinear_arith)
        requires
            q == n / 4,
            r == n % 4,
            idx == 3 * q + (3 * r) / 4,
    ;
    idx
}

/// The tip to pay for a bundle, from the recent prioritization fees of the network.
pub fn tip_from_fees(fees: &Vec<u64>) -> (tip: u64)
    ensures
        tip == dynamic_tip(fees@),
        tip >= BASELINE_TIP_LAMPORTS,
{
    if fees.len() == 0 {
        return BASELINE_TIP_LAMPORTS;
    }
    let ranked = rank_fees(fees);
    proof {
        lemma_fee_order_total();
        fees@.lemma_sort_by_ensures(fee_order());
        assert(ranked@.len() == fees@.len()) by {
            broadcast use vstd::seq_lib::group_to_multiset_ensures;
            assert(ranked@.to_multiset().len() == fees@.to_multiset().len());
        }
    }
    let idx = percentile_75_index(ranked.len());
    let p75 = ranked[idx];
    if p75 >= BASELINE_TIP_LAMPORTS {
        p75
    } else {
        BASELINE_TIP_LAMPORTS
    }
}

/// The tip depends only on which fees were reported and how often, not on the
/// order in which the network listed them.
pub proof fn lemma_tip_ignores_fee_order(a: Seq<u64>, b: Seq<u64>)
    requires
        a.to_multiset() == b.to_multiset(),
    ensures
        dynamic_tip(a) == dynamic_tip(b),
{
    lemma_fee_order_total();
    a.lemma_sort_by_ensures(fee_order());
    b.lemma_sort_by_ensures(fee_order());
    lemma_sorted_unique(ranked_fees(a), ranked_fees(b), fee_order());
    vstd::seq_lib::to_multiset_len(a);
    vstd::seq_lib::to_multiset_len(b);
}

/// The tip is either the baseline or one of the reported fees, and never below
/// the baseline.
pub proof fn lemma_tip_is_baseline_or_reported_fee(fees: Seq<u64>)
    ensures
        dynamic_tip(fees) >= BASELINE_TIP_LAMPORTS,
        dynamic_tip(fees) == BASELINE_TIP_LAMPORTS || fees.contains(dynamic_tip(fees)),
{
    if fees.len() > 0 {
        lemma_fee_order_total();
        fees.lemma_sort_by_ensures(fee_order());
        let ranked = ranked_fees(fees);
        let k = percentile_75_rank(fees.len()) as int;
        assert(ranked.len() == fees.len()) by {
            broadcast use vstd::seq_lib::group_to_multiset_ensures;
            assert(ranked.to_multiset().len() == fees.to_multiset().len());
        }
        assert(ranked.contains(ranked[k]));
        assert(fees.contains(ranked[k])) by {
            broadcast use vstd::seq_lib::group_to_multiset_ensures;
            assert(ranked.to_multiset().count(ranked[k]) > 0);
        }
    }
}

/// How many of the fees are at most `v`.
pub open spec fn count_at_most(s: Seq<u64>, v: u64) -> nat
    decreases s.len(),
{
    if s.len() == 0 {
        0
    } else {
        count_at_most(s.drop_last(), v) + if s.last() <= v {
            1nat
        } else {
            0nat
        }
    }
}

proof fn lemma_count_at_most_len(s: Seq<u64>, v: u64)
    ensures
        count_at_most(s, v) <= s.len(),
    decreases s.len(),
{
    if s.len() > 0 {
        lemma_count_at_most_len(s.drop_last(), v);
    }
}

proof fn lemma_count_at_most_remove(t: Seq<u64>, j: int, v: u64)
    requires
        0 <= j < t.len(),
    ensures
        count_at_most(t, v) == count_at_most(t.remove(j), v) + if t[j] <= v {
            1nat
        } else {
            0nat
        },
    decreases t.len(),
{
    if j == t.len() - 1 {
        assert(t.remove(j) =~= t.drop_last());
    } else {
        assert(t.remove(j).drop_last() =~= t.drop_last().remove(j));
        assert(t.remove(j).last() == t.last());
        lemma_count_at_most_remove(t.drop_last(), j, v);
    }
}

proof fn lemma_count_at_most_permutation(s: Seq<u64>, t: Seq<u64>, v: u64)
    requires
        s.to_multiset() == t.to_multiset(),
    ensures
        count_at_most(s, v) == count_at_most(t, v),
    decreases s.len(),
{
    broadcast use vstd::seq_lib::group_to_multiset_ensures;
    broadcast use vstd::multiset::group_multiset_axioms;

    vstd::seq_lib::to_multiset_len(s);
    vstd::seq_lib::to_multiset_len(t);
    if s.len() > 0 {
        let x = s.last();
        assert(s =~= s.drop_last().push(x));
        assert(s.to_multiset() =~= s.drop_last().to_multiset().insert(x));
        assert(t.to_multiset().count(x) > 0);
        assert(t.contains(x));
        let j = choose|j: int| 0 <= j < t.len() && t[j] == x;
        assert(t.remove(j).to_multiset() == t.to_multiset().remove(x));
        assert(s.drop_last().to_multiset() =~= s.to_multiset().remove(x));
        lemma_count_at_most_permutation(s.drop_last(), t.remove(j), v);
        lemma_count_at_most_remove(t, j, v);
    } else {
        assert(t.len() == 0);
    }
}

proof fn lemma_count_at_most_upper(s: Seq<u64>, v: u64, k: int)
    requires
        0 <= k,
        forall|i: int| k <= i < s.len() ==> s[i] > v,
    ensures
        count_at_most(s, v) <= k,
    decreases s.len(),
{
    if s.len() > k {
        lemma_count_at_most_upper(s.drop_last(), v, k);
    } else {
        lemma_count_at_most_len(s, v);
    }
}

proof fn lemma_count_at_most_lower(s: Seq<u64>, v: u64, m: int)
    requires
        0 <= m <= s.len(),
        forall|i: int| 0 <= i < m ==> s[i] <= v,
    ensures
        count_at_most(s, v) >= m,
    decreases s.len(),
{
    if s.len() > m {
        lemma_count_at_most_lower(s.drop_last(), v, m);
    } else if m > 0 {
        lemma_count_at_most_lower(s.drop_last(), v, m - 1);
    }
}

proof fn lemma_count_at_most_pointwise(a: Seq<u64>, b: Seq<u64>, v: u64)
    requires
        a.len() == b.len(),
        forall|i: int| 0 <= i < a.len() ==> a[i] <= b[i],
    ensures
        count_at_most(a, v) >= count_at_most(b, v),
    decreases a.len(),
{
    if a.len() > 0 {
        lemma_count_at_most_pointwise(a.drop_last(), b.drop_last(), v);
    }
}

/// Raising some fees, and lowering none, never lowers the tip.
pub proof fn lemma_tip_monotone_in_fees(a: Seq<u64>, b: Seq<u64>)
    requires
        a.len() == b.len(),
        forall|i: int| 0 <= i < a.len() ==> a[i] <= b[i],
    ensures
        dynamic_tip(a) <= dynamic_tip(b),
{
    if a.len() > 0 {
        lemma_fee_order_total();
        a.lemma_sort_by_ensures(fee_order());
        b.lemma_sort_by_ensures(fee_order());
        let sa = ranked_fees(a);
        let sb = ranked_fees(b);
        vstd::seq_lib::to_multiset_len(a);
        vstd::seq_lib::to_multiset_len(b);
        vstd::seq_lib::to_multiset_len(sa);
        vstd::seq_lib::to_multiset_len(sb);
        let k = percentile_75_rank(a.len()) as int;
        assert(0 <= k < a.len());
        if sa[k] > sb[k] {
            let v = sb[k];
            assert forall|i: int| 0 <= i < k + 1 implies sb[i] <= v by {
                if i < k {
                    assert((fee_order())(sb[i], sb[k]));
                }
            }
            lemma_count_at_most_lower(sb, v, k + 1);
            lemma_count_at_most_permutation(b, sb, v);
            lemma_count_at_most_pointwise(a, b, v);
            lemma_count_at_most_permutation(a, sa, v);
            assert forall|i: int| k <= i < sa.len() implies sa[i] > v by {
                if i > k {
                    assert((fee_order())(sa[k], sa[i]));
                }
            }
            lemma_count_at_most_upper(sa, v, k);
            assert(false);
        }
    }
}

/// The tip is the fee of rank floor(3n/4) among the fees in ascending order,
/// raised to the baseline when it lies below it, and the baseline when there are
/// no fees.
pub proof fn lemma_tip_is_floored_percentile(fees: Seq<u64>)
    ensures
        fees.len() == 0 ==> dynamic_tip(fees) == BASELINE_TIP_LAMPORTS,
        fees.len() > 0 ==> {
            let p75 = ranked_fees(fees)[(3 * fees.len()) as int / 4];
            &&& dynamic_tip(fees) >= p75
            &&& dynamic_tip(fees) >= BASELINE_TIP_LAMPORTS
            &&& p75 >= BASELINE_TIP_LAMPORTS ==> dynamic_tip(fees) == p75
            &&& p75 < BASELINE_TIP_LAMPORTS ==> dynamic_tip(fees) == BASELINE_TIP_LAMPORTS
        },
{
}

/// Whatever ascending arrangement of the reported fees one takes, the tip is its
/// entry at index floor(3n/4), raised to 10,000 lamports when it lies below.
pub proof fn lemma_tip_from_any_ascending_arrangement(fees: Seq<u64>, ascending: Seq<u64>)
    requires
        fees.len() > 0,
        ascending.to_multiset() == fees.to_multiset(),
        forall|i: int, j: int| 0 <= i < j < ascending.len() ==> ascending[i] <= ascending[j],
    ensures
        ascending.len() == fees.len(),
        ({
            let p75 = ascending[(3 * fees.len()) as int / 4];
            dynamic_tip(fees) == if p75 >= 10_000 {
                p75
            } else {
                10_000u64
            }
        }),
{
    lemma_fee_order_total();
    fees.lemma_sort_by_ensures(fee_order());
    assert(sorted_by(ascending, fee_order()));
    lemma_sorted_unique(ranked_fees(fees), ascending, fee_order());
    vstd::seq_lib::to_multiset_len(fees);
    vstd::seq_lib::to_multiset_len(ascending);
}

/// The tip as an order statistic of the fees themselves: never below the baseline;
/// for a non-empty list, at least floor(3n/4) + 1 fees are at most the tip, and
/// when the tip exceeds the baseline at most floor(3n/4) fees lie below it.
pub proof fn lemma_tip_counts(fees: Seq<u64>)
    ensures
        dynamic_tip(fees) >= BASELINE_TIP_LAMPORTS,
        fees.len() == 0 ==> dynamic_tip(fees) == BASELINE_TIP_LAMPORTS,
        fees.len() > 0 ==> count_at_most(fees, dynamic_tip(fees)) >= (3 * fees.len()) / 4 + 1,
        fees.len() > 0 && dynamic_tip(fees) > BASELINE_TIP_LAMPORTS ==> count_at_most(
            fees,
            (dynamic_tip(fees) - 1) as u64,
        ) <= (3 * fees.len()) / 4,
{
    if fees.len() > 0 {
        lemma_fee_order_total();
        fees.lemma_sort_by_ensures(fee_order());
        let sa = ranked_fees(fees);
        vstd::seq_lib::to_multiset_len(fees);
        vstd::seq_lib::to_multiset_len(sa);
        let k = percentile_75_rank(fees.len()) as int;
        let p = sa[k];
        let t = dynamic_tip(fees);
        assert forall|i: int| 0 <= i < k + 1 implies sa[i] <= t by {
            if i < k {
                assert((fee_order())(sa[i], sa[k]));
            }
        }
        lemma_count_at_most_lower(sa, t, k + 1);
        lemma_count_at_most_permutation(fees, sa, t);
        if t > BASELINE_TIP_LAMPORTS {
            let v = (t - 1) as u64;
            assert forall|i: int| k <= i < sa.len() implies sa[i] > v by {
                if i > k {
                    assert((fee_order())(sa[k], sa[i]));
                }
            }
            lemma_count_at_most_upper(sa, v, k);
            lemma_count_at_most_permutation(fees, sa, v);
        }
    }
}

} // verus!
