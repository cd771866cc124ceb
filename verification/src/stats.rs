//! Percentiles of measurements.

use vstd::prelude::*;

verus! {

/// From the smallest up.
pub open spec fn ascending(values: Seq<i64>) -> bool {
    forall|i: int, j: int| 0 <= i <= j < values.len() ==> values[i] <= values[j]
}

/// The place of a percentile among `n` values.
pub open spec fn percentile_index(n: nat, percentile: nat) -> int {
    (n - 1) * percentile / 100
}

proof fn lemma_index(n: nat, percentile: nat)
    requires
        n > 0,
        percentile <= 100,
    ensures
        0 <= percentile_index(n, percentile) < n,
        0 <= (n - 1) * percentile <= (n - 1) * 100,
{
    assert(0 <= (n - 1) * percentile <= (n - 1) * 100) by (nonlinear_arith)
        requires
            n > 0,
            percentile <= 100,
    ;
}

/// The value that `share` hundredths of the values are at or below, of values that are in order.
pub fn percentile(values: &Vec<i64>, share: usize) -> (r: i64)
    requires
        values@.len() > 0,
        share <= 100,
    ensures
        0 <= percentile_index(values@.len(), share as nat) < values@.len(),
        r == values@[percentile_index(values@.len(), share as nat)],
{
    proof {
        lemma_index(values@.len(), share as nat);
    }
    let place: u128 = (values.len() - 1) as u128 * share as u128 / 100;
    values[place as usize]
}

/// What is reported of measurements.
#[derive(Debug, Clone, Copy, PartialEq, Eq, Structural)]
pub struct Summary {
    pub count: usize,
    pub p50: i64,
    pub p95: i64,
    pub p99: i64,
    pub min: i64,
    pub max: i64,
}

/// The summary of values that are in order.
pub open spec fn summary_of(values: Seq<i64>) -> Summary {
    Summary {
        count: values.len() as usize,
        p50: values[percentile_index(values.len(), 50)],
        p95: values[percentile_index(values.len(), 95)],
        p99: values[percentile_index(values.len(), 99)],
        min: values[0],
        max: values.last(),
    }
}

fn summarize_sorted(values: &Vec<i64>) -> (r: Option<Summary>)
    ensures
        r == (if values@.len() == 0 {
            None
        } else {
            Some(summary_of(values@))
        }),
{
    if values.len() == 0 {
        return None;
    }
    Some(
        Summary {
            count: values.len(),
            p50: percentile(values, 50),
            p95: percentile(values, 95),
            p99: percentile(values, 99),
            min: values[0],
            max: values[values.len() - 1],
        },
    )
}

/// Puts the values in order and sums them up; none where there are none.
pub fn summarize(values: &mut Vec<i64>) -> (r: Option<Summary>)
    ensures
        ascending(final(values)@),
        final(values)@.to_multiset() == old(values)@.to_multiset(),
        r == (if final(values)@.len() == 0 {
            None
        } else {
            Some(summary_of(final(values)@))
        }),
{
    sort(values);
    summarize_sorted(values)
}

fn sort(values: &mut Vec<i64>)
    ensures
        ascending(final(values)@),
        final(values)@.to_multiset() == old(values)@.to_multiset(),
{
    let mut n: usize = 0;
    while n < values.len()
        invariant
            n <= values@.len(),
            values@.len() == old(values)@.len(),
            ascending(values@.take(n as int)),
            values@.to_multiset() == old(values)@.to_multiset(),
        decreases values@.len() - n,
    {
        let mut k: usize = n;
        assert forall|i: int, j: int| 0 <= i <= j < n implies values@[i] <= values@[j] by {
            assert(values@.take(n as int)[i] == values@[i]);
            assert(values@.take(n as int)[j] == values@[j]);
        }
        while k > 0 && values[k - 1] > values[k]
            invariant
                k <= n < values@.len(),
                values@.len() == old(values)@.len(),
                values@.to_multiset() == old(values)@.to_multiset(),
                forall|i: int, j: int|
                    0 <= i <= j <= n && i != k && j != k ==> values@[i] <= values@[j],
                forall|j: int| k < j <= n ==> values@[k as int] <= values@[j],
            decreases k,
        {
            let a: i64 = values[k - 1];
            let b: i64 = values[k];
            let ghost before = values@;
            values.set(k - 1, b);
            values.set(k, a);
            proof {
                lemma_swap(before, k - 1, k as int);
                assert(values@ == before.update(k - 1, b).update(k as int, a));
            }
            k -= 1;
        }
        n += 1;
        assert forall|i: int, j: int| 0 <= i <= j < n implies values@.take(n as int)[i]
            <= values@.take(n as int)[j] by {
            if i != k && j != k {
                assert(values@[i] <= values@[j]);
            } else if i == k && j != k {
                assert(values@[k as int] <= values@[j]);
            } else if i != k && j == k {
                if k > 0 {
                    if i < k - 1 {
                        assert(values@[i] <= values@[k - 1]);
                    }
                }
            }
        }
    }
    assert(values@.take(n as int) == values@);
}

proof fn lemma_swap(s: Seq<i64>, i: int, j: int)
    requires
        0 <= i < j < s.len(),
    ensures
        s.update(i, s[j]).update(j, s[i]).to_multiset() == s.to_multiset(),
{
    broadcast use vstd::seq_lib::group_to_multiset_ensures;

    assert(s.update(i, s[j]).update(j, s[i]).to_multiset() =~= s.to_multiset()) by {
        vstd::seq_lib::to_multiset_update(s, i, s[j]);
        vstd::seq_lib::to_multiset_update(s.update(i, s[j]), j, s[i]);
    }
}

/// Percentiles of ordered values are ordered themselves, between the smallest and the largest.
pub proof fn law_percentiles_are_ordered(values: Seq<i64>, low: nat, high: nat)
    requires
        ascending(values),
        values.len() > 0,
        low <= high <= 100,
    ensures
        values[0] <= values[percentile_index(values.len(), low)]
            <= values[percentile_index(values.len(), high)] <= values.last(),
{
    let n = values.len();
    lemma_index(n, low);
    lemma_index(n, high);
    assert((n - 1) * low <= (n - 1) * high) by (nonlinear_arith)
        requires
            n > 0,
            low <= high,
    ;
}

/// The place of a percentile is the last one that is no further along the values than the percentile:
/// none at zero, the last value at a hundred.
pub proof fn law_percentile_place(n: nat, percentile: nat)
    requires
        n > 0,
        percentile <= 100,
    ensures
        ({
            let place = percentile_index(n, percentile);
            &&& place * 100 <= (n - 1) * percentile < (place + 1) * 100
            &&& percentile == 0 ==> place == 0
            &&& percentile == 100 ==> place == n - 1
        }),
{
    lemma_index(n, percentile);
    let x = (n - 1) * percentile;
    vstd::arithmetic::div_mod::lemma_fundamental_div_mod(x, 100);
    if percentile == 0 {
        assert((n - 1) * 0 == 0) by (nonlinear_arith);
    }
}

/// A summary tells the smallest and the largest of the values, and the values at its percentiles.
pub proof fn law_summary(values: Seq<i64>)
    requires
        ascending(values),
        0 < values.len() <= usize::MAX,
    ensures
        ({
            let s = summary_of(values);
            let n = values.len();
            &&& s.count == n
            &&& forall|i: int| 0 <= i < n ==> s.min <= #[trigger] values[i] <= s.max
            &&& s.min <= s.p50 <= s.p95 <= s.p99 <= s.max
            &&& s.p50 == values[percentile_index(n, 50)]
            &&& s.p95 == values[percentile_index(n, 95)]
            &&& s.p99 == values[percentile_index(n, 99)]
        }),
{
    law_percentiles_are_ordered(values, 50, 95);
    law_percentiles_are_ordered(values, 95, 99);
}

} // verus!
