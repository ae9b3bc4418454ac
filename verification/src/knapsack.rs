//! The 0/1 knapsack allocator of the buy-side pricing loop: weights are
//! platinum costs, values are expected profits, the capacity is the
//! operator's total spending cap. The selection is deterministic so that a
//! rerun on identical inputs evicts identical orders.

use vstd::prelude::*;

use crate::types::{amount_ok, plat_ok, PLAT_LIMIT};

verus! {

/// One candidate order of the allocator: its platinum cost, its expected
/// profit, and how to address it on the remote (an empty id marks the
/// proposed new order).
#[derive(Debug)]
pub struct KnapsackEntry {
    pub weight: i64,
    pub value: i64,
    pub url: String,
    pub order_id: String,
}

/// Bound on how many candidate orders the allocator accepts; together with
/// the bounds on single amounts it keeps every accumulated value inside an
/// `i64`.
pub const KNAPSACK_MAX_ITEMS: usize = 0x10000;

/// The inputs the allocator accepts: bounded non-negative weights, bounded
/// values, a bounded non-negative capacity, and a bounded item count.
pub open spec fn ks_inputs_ok(items: Seq<KnapsackEntry>, cap: int) -> bool {
    &&& items.len() <= KNAPSACK_MAX_ITEMS
    &&& plat_ok(cap)
    &&& forall|i: int|
        0 <= i < items.len() ==> plat_ok((#[trigger] items[i]).weight as int) && amount_ok(
            items[i].value as int,
        )
}

/// The greatest total value reachable with the first `i` items under
/// capacity `w`: the classic table recurrence.
pub open spec fn ks_best(items: Seq<KnapsackEntry>, i: int, w: int) -> int
    decreases i,
{
    if i <= 0 {
        0
    } else {
        let wi = items[i - 1].weight as int;
        let vi = items[i - 1].value as int;
        let without = ks_best(items, i - 1, w);
        if wi <= w {
            let with_item = ks_best(items, i - 1, w - wi) + vi;
            if with_item > without {
                with_item
            } else {
                without
            }
        } else {
            without
        }
    }
}

/// The indices the deterministic back-trace selects, walking from item `i`
/// down at residual capacity `w`; ties keep the item out.
pub open spec fn ks_selected(items: Seq<KnapsackEntry>, i: int, w: int) -> Seq<usize>
    decreases i,
{
    if i <= 0 {
        Seq::empty()
    } else if ks_best(items, i, w) != ks_best(items, i - 1, w) {
        seq![(i - 1) as usize] + ks_selected(items, i - 1, w - items[i - 1].weight as int)
    } else {
        ks_selected(items, i - 1, w)
    }
}

/// The indices the back-trace leaves out.
pub open spec fn ks_unselected(items: Seq<KnapsackEntry>, i: int, w: int) -> Seq<usize>
    decreases i,
{
    if i <= 0 {
        Seq::empty()
    } else if ks_best(items, i, w) != ks_best(items, i - 1, w) {
        ks_unselected(items, i - 1, w - items[i - 1].weight as int)
    } else {
        seq![(i - 1) as usize] + ks_unselected(items, i - 1, w)
    }
}

/// Total weight of the items at the given indices.
pub open spec fn idx_weight(items: Seq<KnapsackEntry>, idxs: Seq<usize>) -> int
    decreases idxs.len(),
{
    if idxs.len() == 0 {
        0
    } else {
        items[idxs[0] as int].weight + idx_weight(items, idxs.drop_first())
    }
}

/// Total value of the items at the given indices.
pub open spec fn idx_value(items: Seq<KnapsackEntry>, idxs: Seq<usize>) -> int
    decreases idxs.len(),
{
    if idxs.len() == 0 {
        0
    } else {
        items[idxs[0] as int].value + idx_value(items, idxs.drop_first())
    }
}

/// Total weight of an arbitrary subset of the first `i` items, given as a
/// pick flag per index.
pub open spec fn picks_weight(items: Seq<KnapsackEntry>, picks: Seq<bool>, i: int) -> int
    decreases i,
{
    if i <= 0 {
        0
    } else {
        (if picks[i - 1] {
            items[i - 1].weight as int
        } else {
            0
        }) + picks_weight(items, picks, i - 1)
    }
}

/// Total value of an arbitrary subset of the first `i` items.
pub open spec fn picks_value(items: Seq<KnapsackEntry>, picks: Seq<bool>, i: int) -> int
    decreases i,
{
    if i <= 0 {
        0
    } else {
        (if picks[i - 1] {
            items[i - 1].value as int
        } else {
            0
        }) + picks_value(items, picks, i - 1)
    }
}

/// The table value is non-negative and grows by at most one value bound per
/// item.
proof fn lemma_ks_best_bound(items: Seq<KnapsackEntry>, i: int, w: int)
    requires
        forall|k: int|
            0 <= k < items.len() ==> plat_ok((#[trigger] items[k]).weight as int) && amount_ok(
                items[k].value as int,
            ),
        0 <= i <= items.len(),
    ensures
        0 <= ks_best(items, i, w) <= i * 2 * PLAT_LIMIT,
    decreases i,
{
    if i > 0 {
        lemma_ks_best_bound(items, i - 1, w);
        lemma_ks_best_bound(items, i - 1, w - items[i - 1].weight as int);
    }
}

/// When the table differs between rows `i` and `i - 1`, item `i - 1` fits
/// and the difference is exactly its value on the reduced capacity.
proof fn lemma_ks_step(items: Seq<KnapsackEntry>, i: int, w: int)
    requires
        1 <= i <= items.len(),
        ks_best(items, i, w) != ks_best(items, i - 1, w),
    ensures
        items[i - 1].weight <= w,
        ks_best(items, i, w) == ks_best(items, i - 1, w - items[i - 1].weight as int) + items[i
            - 1].value,
{
}

/// The deterministic selection is feasible and attains the table value.
pub proof fn lemma_knapsack_selection_exact(items: Seq<KnapsackEntry>, i: int, w: int)
    requires
        0 <= i <= items.len(),
        items.len() <= KNAPSACK_MAX_ITEMS,
        0 <= w,
        forall|k: int| 0 <= k < items.len() ==> (#[trigger] items[k]).weight >= 0,
    ensures
        idx_weight(items, ks_selected(items, i, w)) <= w,
        idx_value(items, ks_selected(items, i, w)) == ks_best(items, i, w),
    decreases i,
{
    if i > 0 {
        let wi = items[i - 1].weight as int;
        let vi = items[i - 1].value as int;
        if ks_best(items, i, w) != ks_best(items, i - 1, w) {
            lemma_ks_step(items, i, w);
            lemma_knapsack_selection_exact(items, i - 1, w - wi);
            let rest = ks_selected(items, i - 1, w - wi);
            let whole = seq![(i - 1) as usize] + rest;
            assert(ks_selected(items, i, w) == whole);
            assert(whole.drop_first() =~= rest);
            assert(whole[0] == (i - 1) as usize);
            assert(whole[0] as int == i - 1);
            assert(idx_weight(items, whole) == wi + idx_weight(items, rest));
            assert(idx_value(items, whole) == vi + idx_value(items, rest));
        } else {
            lemma_knapsack_selection_exact(items, i - 1, w);
        }
    }
}

/// Subset totals over non-negative weights are non-negative.
proof fn lemma_picks_weight_nonneg(items: Seq<KnapsackEntry>, picks: Seq<bool>, i: int)
    requires
        0 <= i <= items.len(),
        forall|k: int| 0 <= k < items.len() ==> (#[trigger] items[k]).weight >= 0,
    ensures
        picks_weight(items, picks, i) >= 0,
    decreases i,
{
    if i > 0 {
        lemma_picks_weight_nonneg(items, picks, i - 1);
    }
}

/// Optimality: no subset of the first `i` items whose total weight fits in
/// `w` is worth more than the table value. In particular the deterministic
/// selection's total value is at least that of any other feasible subset.
pub proof fn lemma_knapsack_optimal(items: Seq<KnapsackEntry>, picks: Seq<bool>, i: int, w: int)
    requires
        0 <= i <= items.len(),
        i <= picks.len(),
        0 <= w,
        forall|k: int| 0 <= k < items.len() ==> (#[trigger] items[k]).weight >= 0,
        picks_weight(items, picks, i) <= w,
    ensures
        picks_value(items, picks, i) <= ks_best(items, i, w),
    decreases i,
{
    if i > 0 {
        let wi = items[i - 1].weight as int;
        let vi = items[i - 1].value as int;
        lemma_picks_weight_nonneg(items, picks, i - 1);
        if picks[i - 1] {
            lemma_knapsack_optimal(items, picks, i - 1, w - wi);
        } else {
            lemma_knapsack_optimal(items, picks, i - 1, w);
        }
    }
}


/// The back-trace indices stay below the row they were discovered from.
pub proof fn lemma_ks_index_bounds(items: Seq<KnapsackEntry>, i: int, w: int)
    requires
        0 <= i <= items.len(),
        items.len() <= KNAPSACK_MAX_ITEMS,
    ensures
        forall|j: int|
            0 <= j < ks_selected(items, i, w).len() ==> (#[trigger] ks_selected(
                items,
                i,
                w,
            )[j]) < i,
        forall|j: int|
            0 <= j < ks_unselected(items, i, w).len() ==> (#[trigger] ks_unselected(
                items,
                i,
                w,
            )[j]) < i,
    decreases i,
{
    if i > 0 {
        let wi = items[i - 1].weight as int;
        if ks_best(items, i, w) != ks_best(items, i - 1, w) {
            lemma_ks_index_bounds(items, i - 1, w - wi);
            let rest_s = ks_selected(items, i - 1, w - wi);
            let rest_u = ks_unselected(items, i - 1, w - wi);
            assert(ks_selected(items, i, w) == seq![(i - 1) as usize] + rest_s);
            assert(ks_unselected(items, i, w) == rest_u);
            assert forall|j: int|
                0 <= j < ks_selected(items, i, w).len() implies (#[trigger] ks_selected(
                items,
                i,
                w,
            )[j]) < i by {
                if j == 0 {
                    assert(ks_selected(items, i, w)[j] == (i - 1) as usize);
                } else {
                    assert(ks_selected(items, i, w)[j] == rest_s[j - 1]);
                }
            }
            assert forall|j: int|
                0 <= j < ks_unselected(items, i, w).len() implies (#[trigger] ks_unselected(
                items,
                i,
                w,
            )[j]) < i by {
                assert(ks_unselected(items, i, w)[j] == rest_u[j]);
            }
        } else {
            lemma_ks_index_bounds(items, i - 1, w);
            let rest_s = ks_selected(items, i - 1, w);
            let rest_u = ks_unselected(items, i - 1, w);
            assert(ks_selected(items, i, w) == rest_s);
            assert(ks_unselected(items, i, w) == seq![(i - 1) as usize] + rest_u);
            assert forall|j: int|
                0 <= j < ks_selected(items, i, w).len() implies (#[trigger] ks_selected(
                items,
                i,
                w,
            )[j]) < i by {
                assert(ks_selected(items, i, w)[j] == rest_s[j]);
            }
            assert forall|j: int|
                0 <= j < ks_unselected(items, i, w).len() implies (#[trigger] ks_unselected(
                items,
                i,
                w,
            )[j]) < i by {
                if j == 0 {
                    assert(ks_unselected(items, i, w)[j] == (i - 1) as usize);
                } else {
                    assert(ks_unselected(items, i, w)[j] == rest_u[j - 1]);
                }
            }
        }
    }
}

/// The table and the back-trace depend on weights and values alone, never
/// on how a candidate is labelled.
pub proof fn lemma_ks_same_numbers(a: Seq<KnapsackEntry>, b: Seq<KnapsackEntry>, i: int, w: int)
    requires
        a.len() == b.len(),
        forall|k: int|
            0 <= k < a.len() ==> (#[trigger] a[k]).weight == b[k].weight && a[k].value
                == b[k].value,
        0 <= i <= a.len(),
    ensures
        ks_best(a, i, w) == ks_best(b, i, w),
        ks_selected(a, i, w) == ks_selected(b, i, w),
        ks_unselected(a, i, w) == ks_unselected(b, i, w),
    decreases i,
{
    if i > 0 {
        lemma_ks_same_numbers(a, b, i - 1, w);
        lemma_ks_same_numbers(a, b, i - 1, w - a[i - 1].weight as int);
    }
}

/// Solve the 0/1 knapsack over the given candidates at the given capacity.
/// Returns the greatest reachable total value together with the selected and
/// the unselected indices, each in descending order of index as the
/// back-trace discovers them.
#[verifier::loop_isolation(false)]
pub fn knapsack(items: &Vec<KnapsackEntry>, max_weight: i64) -> (r: (i64, Vec<usize>, Vec<usize>))
    requires
        ks_inputs_ok(items@, max_weight as int),
    ensures
        r.0 as int == ks_best(items@, items@.len() as int, max_weight as int),
        r.1@ == ks_selected(items@, items@.len() as int, max_weight as int),
        r.2@ == ks_unselected(items@, items@.len() as int, max_weight as int),
{
    let n = items.len();
    let capu: usize = max_weight as usize;
    let mut dp: Vec<Vec<i64>> = Vec::new();
    let row0: Vec<i64> = vec![0i64; capu + 1];
    dp.push(row0);
    let mut i: usize = 1;
    while i <= n
        invariant
            1 <= i <= n + 1,
            dp@.len() == i,
            forall|a: int|
                0 <= a < i as int ==> (#[trigger] dp@[a])@.len() == capu + 1,
            forall|a: int, b: int|
                0 <= a < i as int && 0 <= b <= capu as int ==> (#[trigger] dp@[a]@[b]) as int
                    == ks_best(items@, a, b),
        decreases n + 1 - i,
    {
        let mut row: Vec<i64> = vec![0i64; capu + 1];
        let weight = items[i - 1].weight;
        let value = items[i - 1].value;
        let mut w: usize = 0;
        while w <= capu
            invariant
                w <= capu + 1,
                row@.len() == capu + 1,
                weight == items@[i as int - 1].weight,
                value == items@[i as int - 1].value,
                forall|b: int|
                    0 <= b < w as int ==> (#[trigger] row@[b]) as int == ks_best(
                        items@,
                        i as int,
                        b,
                    ),
            decreases capu + 1 - w,
        {
            proof {
                lemma_ks_best_bound(items@, i as int - 1, w as int);
                lemma_ks_best_bound(items@, i as int - 1, w as int - weight as int);
                lemma_ks_best_bound(items@, i as int, w as int);
            }
            let without = dp[i - 1][w];
            if weight >= 0 && weight <= w as i64 {
                let with_item = dp[i - 1][w - weight as usize] + value;
                if with_item > without {
                    row.set(w, with_item);
                } else {
                    row.set(w, without);
                }
            } else {
                row.set(w, without);
            }
            w = w + 1;
        }
        dp.push(row);
        i = i + 1;
    }
    let best = dp[n][capu];
    let mut selected: Vec<usize> = Vec::new();
    let mut unselected: Vec<usize> = Vec::new();
    let mut w: usize = capu;
    let mut k: usize = n;
    while k > 0
        invariant
            k <= n,
            w <= capu,
            ks_selected(items@, n as int, capu as int) == selected@ + ks_selected(
                items@,
                k as int,
                w as int,
            ),
            ks_unselected(items@, n as int, capu as int) == unselected@ + ks_unselected(
                items@,
                k as int,
                w as int,
            ),
        decreases k,
    {
        let ghost w0 = w as int;
        let with_row = dp[k][w];
        let without_row = dp[k - 1][w];
        if with_row != without_row {
            proof {
                lemma_ks_step(items@, k as int, w as int);
            }
            selected.push(k - 1);
            w = w - items[k - 1].weight as usize;
            proof {
                assert(selected@.drop_last() + (seq![(k - 1) as usize] + ks_selected(
                    items@,
                    k as int - 1,
                    w as int,
                )) =~= selected@ + ks_selected(items@, k as int - 1, w as int));
            }
        } else {
            unselected.push(k - 1);
            proof {
                assert(unselected@.drop_last() + (seq![(k - 1) as usize] + ks_unselected(
                    items@,
                    k as int - 1,
                    w0,
                )) =~= unselected@ + ks_unselected(items@, k as int - 1, w0));
            }
        }
        k = k - 1;
    }
    proof {
        assert(ks_selected(items@, 0, w as int) =~= Seq::<usize>::empty());
        assert(ks_unselected(items@, 0, w as int) =~= Seq::<usize>::empty());
        assert(selected@ + Seq::<usize>::empty() =~= selected@);
        assert(unselected@ + Seq::<usize>::empty() =~= unselected@);
    }
    (best, selected, unselected)
}

} // verus!
