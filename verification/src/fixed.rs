//! Cumulative sums of arrays, whose length is part of the type.

use crate::element::Accumulate;
use crate::model::{
    accumulable, accumulated_sums, accumulated_through, prefix_sums, sum_through, summable,
};
use std::ops::Add;
use vstd::prelude::*;
use vstd::std_specs::ops::AddSpec;

verus! {

/// The cumulative sum of `x` in a new array of the same length; `x` is only
/// read.
///
/// The additions are `T`'s own `+`, by value. `T` must be a type whose `+`
/// returns what its `add_spec` says, as the primitive integers are, and every
/// addition on the way must be one that `+` accepts (for an integer: one that
/// does not overflow).
pub fn cumsum_array<T, const N: usize>(x: &[T; N]) -> (y: [T; N])
    where
        T: Add<Output = T> + Default + Copy,
    requires
        T::obeys_add_spec(),
        summable(x@),
    ensures
        y@ == prefix_sums(x@),
{
    let mut y = [T::default(); N];

    if N > 0 {
        y[0] = x[0];

        for i in 1..N
            invariant
                N > 0,
                T::obeys_add_spec(),
                summable(x@),
                forall|j: int| 0 <= j < i ==> y@[j] == sum_through(x@[0], x@, j),
        {
            y[i] = y[i - 1] + x[i];
        }
    }

    assert(y@ =~= prefix_sums(x@));
    y
}

/// The running totals of `x`, written over `x` itself and handed back.
///
/// Slot `i` has slot `i - 1` added onto it, which by then holds its final
/// value; the two are reached through the two halves of the array, split at
/// `i`. The slot is the left operand, so the result is
/// [`accumulated_sums`], which is [`prefix_sums`] wherever `+` commutes.
pub fn cumsum_array_owned<T, const N: usize>(mut x: [T; N]) -> (y: [T; N])
    where
        T: Accumulate,
    requires
        accumulable(x@),
    ensures
        y@ == accumulated_sums(x@),
{
    let ghost x0 = x@;
    let mut i: usize = 1;

    while i < N
        invariant
            1 <= i,
            x0.len() == N,
            accumulable(x0),
            forall|j: int| 0 <= j < i && j < N ==> x@[j] == accumulated_through(x0, j),
            forall|j: int| i <= j < N ==> x@[j] == x0[j],
        decreases N - i,
    {
        let (read, write) = x.split_at_mut(i);
        assert(read@[i - 1] == accumulated_through(x0, i - 1));
        assert(write@[0] == x0[i as int]);
        write[0].accumulate(&read[i - 1]);
        i += 1;
    }

    assert(x@ =~= accumulated_sums(x0));
    x
}

} // verus!
