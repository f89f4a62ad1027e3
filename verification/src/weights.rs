//! Sums of weights.
//!
//! A block's initialization costs what its hooks cost together. The sum is taken over
//! the mathematical integers, so it is the same in whatever order the weights are added.

use vstd::prelude::*;
use crate::primitives::Weight;

verus! {

/// The sum of `weights`.
pub open spec fn total_weight(weights: Seq<Weight>) -> int
    decreases weights.len(),
{
    if weights.len() == 0 {
        0
    } else {
        total_weight(weights.drop_last()) + weights.last()
    }
}

/// A sum of weights only grows: that of the first `k` weights is at most that of all.
pub proof fn lemma_total_weight_of_prefix(weights: Seq<Weight>, k: int)
    requires
        0 <= k <= weights.len(),
    ensures
        0 <= total_weight(weights.take(k)) <= total_weight(weights),
    decreases weights.len(),
{
    if weights.len() == 0 {
        assert(weights.take(k) =~= weights);
    } else if k == weights.len() {
        assert(weights.take(k) =~= weights);
        lemma_total_weight_of_prefix(weights.drop_last(), k - 1);
    } else {
        lemma_total_weight_of_prefix(weights.drop_last(), k);
        assert(weights.drop_last().take(k) =~= weights.take(k));
    }
}

/// The sum of eight weights, written out.
pub proof fn lemma_total_weight_of_eight(weights: Seq<Weight>)
    requires
        weights.len() == 8,
    ensures
        total_weight(weights) == weights[0] + weights[1] + weights[2] + weights[3] + weights[4]
            + weights[5] + weights[6] + weights[7],
{
    reveal_with_fuel(total_weight, 9);
    let w7 = weights.drop_last();
    let w6 = w7.drop_last();
    let w5 = w6.drop_last();
    let w4 = w5.drop_last();
    let w3 = w4.drop_last();
    let w2 = w3.drop_last();
    let w1 = w2.drop_last();
    assert(w1.drop_last().len() == 0);
}

/// The sum of the weights that remain when one is taken out is the sum of all less that
/// one.
pub proof fn lemma_total_weight_without(weights: Seq<Weight>, i: int)
    requires
        0 <= i < weights.len(),
    ensures
        total_weight(weights) == total_weight(weights.remove(i)) + weights[i],
    decreases weights.len(),
{
    if i == weights.len() - 1 {
        assert(weights.remove(i) =~= weights.drop_last());
    } else {
        lemma_total_weight_without(weights.drop_last(), i);
        assert(weights.remove(i).drop_last() =~= weights.drop_last().remove(i));
        assert(weights.remove(i).last() == weights.last());
    }
}

/// The sum of two runs of weights, one behind the other, is the sum of their sums.
pub proof fn lemma_total_weight_of_concat(a: Seq<Weight>, b: Seq<Weight>)
    ensures
        total_weight(a + b) == total_weight(a) + total_weight(b),
    decreases b.len(),
{
    if b.len() == 0 {
        assert(a + b =~= a);
    } else {
        lemma_total_weight_of_concat(a, b.drop_last());
        assert((a + b).drop_last() =~= a + b.drop_last());
        assert((a + b).last() == b.last());
    }
}

/// The sum of weights does not depend on their order: two sequences that hold the same
/// weights, each as often as the other, have the same sum.
pub proof fn lemma_total_weight_is_order_invariant(a: Seq<Weight>, b: Seq<Weight>)
    requires
        a.to_multiset() == b.to_multiset(),
    ensures
        total_weight(a) == total_weight(b),
    decreases a.len(),
{
    a.to_multiset_ensures();
    b.to_multiset_ensures();
    if a.len() > 0 {
        let last = a.len() - 1;
        let x = a[last];
        assert(a.contains(x));
        assert(b.to_multiset().count(x) > 0);
        assert(b.contains(x));
        let j = choose|j: int| 0 <= j < b.len() && b[j] == x;
        assert(a.remove(last) =~= a.drop_last());
        assert(a.drop_last().to_multiset() == b.remove(j).to_multiset());
        lemma_total_weight_is_order_invariant(a.drop_last(), b.remove(j));
        lemma_total_weight_without(b, j);
    } else {
        assert(b.len() == 0);
    }
}

/// A sum of weights that are each at most `bound` is at most their number times
/// `bound`.
pub proof fn lemma_total_weight_is_bounded(weights: Seq<Weight>, bound: int)
    requires
        forall|i: int| 0 <= i < weights.len() ==> weights[i] <= bound,
    ensures
        total_weight(weights) <= weights.len() * bound,
    decreases weights.len(),
{
    if weights.len() > 0 {
        let n = weights.len() as int;
        lemma_total_weight_is_bounded(weights.drop_last(), bound);
        assert((n - 1) * bound + bound == n * bound) by (nonlinear_arith);
    }
}

} // verus!
