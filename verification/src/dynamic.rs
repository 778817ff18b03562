//! Cumulative sums of sequences whose length is known at run time.

use crate::element::Accumulate;
use crate::model::{
    accumulable, accumulated_sums, accumulated_through, prefix_sums, sum_through, summable_from,
    summable_from_clone, sums_from,
};
use vstd::prelude::*;
use vstd::std_specs::ops::AddSpec;

verus! {

/// The cumulative sum of `x` in a new vector of the same length; `x` is only
/// read.
///
/// The first element of the result is a clone of `x[0]`, and each later one
/// is its predecessor plus the element of `x` at the same place. For a type
/// whose clones equal what they were cloned from, as those of the primitive
/// integers do, the result is [`prefix_sums`].
///
/// What a clone is, is the element type's affair, so the caller answers for
/// the additions being permitted whichever clone of `x[0]` the sums start
/// from.
pub fn cumsum<T>(x: &[T]) -> (y: Vec<T>)
    where
        T: Clone + Accumulate,
    requires
        summable_from_clone(x@),
    ensures
        y@.len() == x@.len(),
        x@.len() > 0 ==> cloned(x@[0], y@[0]) && y@ == sums_from(y@[0], x@),
        x@.len() == 0 || y@[0] == x@[0] ==> y@ == prefix_sums(x@),
{
    let mut y = Vec::with_capacity(x.len());

    if !x.is_empty() {
        y.push(x[0].clone());
        let ghost first = y@[0];
        assert(cloned(x@[0], first));

        for i in 1..x.len()
            invariant
                x@.len() > 0,
                cloned(x@[0], first),
                summable_from(first, x@),
                y@.len() == i,
                forall|j: int| 0 <= j < i ==> y@[j] == sum_through(first, x@, j),
        {
            let sum = y[i - 1].add_ref(&x[i]);
            y.push(sum);
        }

        assert(y@ =~= sums_from(first, x@));
    } else {
        assert(y@ =~= prefix_sums(x@));
    }

    y
}

/// The running totals of `x`, written over `x` itself and handed back.
///
/// Slot `i` has slot `i - 1` added onto it, which by then holds its final
/// value; the two are reached through the two halves of the storage, split
/// at `i`. The slot is the left operand, so the result is
/// [`accumulated_sums`], which is [`prefix_sums`] wherever `+` commutes.
pub fn cumsum_owned<T>(mut x: Vec<T>) -> (y: Vec<T>)
    where
        T: Accumulate,
    requires
        accumulable(x@),
    ensures
        y@.len() == x@.len(),
        y@ == accumulated_sums(x@),
{
    let ghost x0 = x@;
    let mut i: usize = 1;

    while i < x.len()
        invariant
            1 <= i,
            x@.len() == x0.len(),
            accumulable(x0),
            forall|j: int| 0 <= j < i && j < x0.len() ==> x@[j] == accumulated_through(x0, j),
            forall|j: int| i <= j < x0.len() ==> x@[j] == x0[j],
        decreases x0.len() - i,
    {
        let (read, write) = x.split_at_mut(i);
        assert(read@[i - 1] == accumulated_through(x0, i - 1));
        assert(write@[0] == x0[i as int]);
        write[0].accumulate(&read[i - 1]);
        i += 1;
    }

    assert(x@ =~= accumulated_sums(x0));
    x
}

} // verus!
