//! What holds of cumulative sums in general, proved from their definitions.

use crate::model::{
    accumulable, accumulated_sums, accumulated_through, add_is_symmetric, commutes_along,
    is_accumulation, is_running_sum, is_running_sum_from, prefix_sums, sum_through, summable,
    summable_from, summable_from_clone, sums_from,
};
use std::ops::Add;
use vstd::prelude::*;
use vstd::std_specs::ops::AddSpec;

verus! {

/// The cumulative sum of the empty sequence is the empty sequence, whichever
/// way it is taken, and it needs no addition.
pub proof fn lemma_empty<T: Add<Output = T>>(first: T, x: Seq<T>)
    requires
        x.len() == 0,
    ensures
        sums_from(first, x) == Seq::<T>::empty(),
        prefix_sums(x) == Seq::<T>::empty(),
        accumulated_sums(x) == Seq::<T>::empty(),
        summable_from(first, x),
        summable(x),
        accumulable(x),
{
    assert(sums_from(first, x) =~= Seq::<T>::empty());
    assert(prefix_sums(x) =~= Seq::<T>::empty());
    assert(accumulated_sums(x) =~= Seq::<T>::empty());
}

/// The cumulative sum of a one-element sequence is that sequence, whichever
/// way it is taken, and it needs no addition.
pub proof fn lemma_singleton<T: Add<Output = T>>(first: T, x: Seq<T>)
    requires
        x.len() == 1,
    ensures
        sums_from(first, x) == seq![first],
        prefix_sums(x) == x,
        accumulated_sums(x) == x,
        summable_from(first, x),
        summable(x),
        accumulable(x),
{
    assert(sums_from(first, x) =~= seq![first]);
    assert(prefix_sums(x) =~= x);
    assert(accumulated_sums(x) =~= x);
}

/// Starting from any clone covers starting from `x[0]` itself, and where
/// every clone equals what it was cloned from there is nothing more to
/// cover.
pub proof fn lemma_summable_from_clone<T: Clone + Add<Output = T>>(x: Seq<T>)
    ensures
        summable_from_clone(x) ==> summable(x),
        (forall|a: T, b: T| #[trigger] cloned(a, b) ==> a == b) && summable(x)
            ==> summable_from_clone(x),
{
    if summable_from_clone(x) && x.len() > 0 {
        assert(cloned(x[0], x[0]));
    }
}

/// Element `i` of the cumulative sum is the left fold of `+` over
/// `x[0..=i]`: the first element is `x[0]`, and each later one is its
/// predecessor plus `x[i]`.
pub proof fn lemma_prefix_sum_identity<T: Add<Output = T>>(x: Seq<T>, i: int)
    requires
        0 <= i < x.len(),
    ensures
        prefix_sums(x).len() == x.len(),
        prefix_sums(x)[i] == sum_through(x[0], x, i),
        i == 0 ==> prefix_sums(x)[i] == x[0],
        i >= 1 ==> prefix_sums(x)[i] == prefix_sums(x)[i - 1].add_spec(x[i]),
{
}

/// The recurrence has one solution: `y` starts with `first` and goes on by
/// `y[i] == y[i - 1] + x[i]` exactly when it is `sums_from(first, x)`.
pub proof fn lemma_running_sum_unique<T: Add<Output = T>>(first: T, x: Seq<T>, y: Seq<T>)
    ensures
        is_running_sum_from(first, x, y) <==> y == sums_from(first, x),
        is_running_sum(x, y) <==> y == prefix_sums(x),
{
    let s = sums_from(first, x);
    assert(is_running_sum_from(first, x, s));
    if is_running_sum_from(first, x, y) {
        assert forall|i: int| 0 <= i < x.len() implies y[i] == sum_through(first, x, i) by {
            lemma_running_sum_reaches(first, x, y, i);
        }
        assert(y =~= s);
    }
    let p = prefix_sums(x);
    assert(is_running_sum(x, p));
    if is_running_sum(x, y) {
        assert forall|i: int| 0 <= i < x.len() implies y[i] == sum_through(x[0], x, i) by {
            lemma_running_sum_reaches(x[0], x, y, i);
        }
        assert(y =~= p);
    }
}

proof fn lemma_running_sum_reaches<T: Add<Output = T>>(first: T, x: Seq<T>, y: Seq<T>, i: int)
    requires
        is_running_sum_from(first, x, y),
        0 <= i < x.len(),
    ensures
        y[i] == sum_through(first, x, i),
    decreases i,
{
    if i > 0 {
        lemma_running_sum_reaches(first, x, y, i - 1);
    }
}

/// In-place accumulation has one outcome: `y` starts with `x[0]` and goes on
/// by `y[i] == x[i] + y[i - 1]` exactly when it is `accumulated_sums(x)`.
pub proof fn lemma_accumulation_unique<T: Add<Output = T>>(x: Seq<T>, y: Seq<T>)
    ensures
        is_accumulation(x, y) <==> y == accumulated_sums(x),
{
    let a = accumulated_sums(x);
    assert(is_accumulation(x, a));
    if is_accumulation(x, y) {
        assert forall|i: int| 0 <= i < x.len() implies y[i] == accumulated_through(x, i) by {
            lemma_accumulation_reaches(x, y, i);
        }
        assert(y =~= a);
    }
}

proof fn lemma_accumulation_reaches<T: Add<Output = T>>(x: Seq<T>, y: Seq<T>, i: int)
    requires
        is_accumulation(x, y),
        0 <= i < x.len(),
    ensures
        y[i] == accumulated_through(x, i),
    decreases i,
{
    if i > 0 {
        lemma_accumulation_reaches(x, y, i - 1);
    }
}

/// Accumulating `x` in place gives, element for element, the cumulative sum
/// of `x` exactly when each of its additions commutes.
///
/// In place, slot `i` is the left operand and the total so far the right
/// one; the cumulative sum adds them the other way round.
pub proof fn lemma_in_place_equivalence<T: Add<Output = T>>(x: Seq<T>)
    ensures
        accumulated_sums(x) == prefix_sums(x) <==> commutes_along(x),
{
    if commutes_along(x) {
        assert forall|i: int| 0 <= i < x.len() implies accumulated_through(x, i) == sum_through(
            x[0],
            x,
            i,
        ) by {
            lemma_commuting_totals_agree(x, i);
        }
        assert(accumulated_sums(x) =~= prefix_sums(x));
    }
    if accumulated_sums(x) == prefix_sums(x) {
        assert forall|i: int| 1 <= i < x.len() implies (#[trigger] sum_through(
            x[0],
            x,
            i - 1,
        )).add_spec(x[i]) == x[i].add_spec(sum_through(x[0], x, i - 1)) by {
            assert(accumulated_sums(x)[i - 1] == prefix_sums(x)[i - 1]);
            assert(accumulated_sums(x)[i] == prefix_sums(x)[i]);
        }
    }
}

proof fn lemma_commuting_totals_agree<T: Add<Output = T>>(x: Seq<T>, i: int)
    requires
        commutes_along(x),
        0 <= i < x.len(),
    ensures
        accumulated_through(x, i) == sum_through(x[0], x, i),
    decreases i,
{
    if i > 0 {
        lemma_commuting_totals_agree(x, i - 1);
    }
}

/// Where `+` takes its operands in either order, the two ways of taking the
/// cumulative sum ask for the same additions and give the same result.
pub proof fn lemma_symmetric_add_agrees<T: Add<Output = T>>(x: Seq<T>)
    requires
        add_is_symmetric::<T>(),
    ensures
        commutes_along(x),
        accumulated_sums(x) == prefix_sums(x),
        accumulable(x) <==> summable(x),
{
    lemma_in_place_equivalence(x);
    assert forall|i: int| 0 <= i < x.len() implies accumulated_through(x, i) == sum_through(
        x[0],
        x,
        i,
    ) by {
        lemma_commuting_totals_agree(x, i);
    }
    if accumulable(x) {
        assert forall|i: int| 1 <= i < x.len() implies (#[trigger] sum_through(
            x[0],
            x,
            i - 1,
        )).add_req(x[i]) by {
            assert(x[i].add_req(accumulated_through(x, i - 1)));
        }
    }
    if summable(x) {
        assert forall|i: int| 1 <= i < x.len() implies x[i].add_req(
            #[trigger] accumulated_through(x, i - 1),
        ) by {
            assert(sum_through(x[0], x, i - 1).add_req(x[i]));
        }
    }
}

} // verus!
