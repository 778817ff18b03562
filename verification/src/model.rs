//! What a cumulative sum is, over mathematical sequences.
//!
//! The meaning of `+` on the element type is the one that `vstd` attaches to
//! `core::ops::Add`: `add_req` says when two values may be added, `add_spec`
//! what the sum is.

use std::ops::Add;
use vstd::prelude::*;
use vstd::std_specs::ops::AddSpec;

verus! {

/// The left fold `((first + x[1]) + x[2]) + ... + x[i]`.
///
/// `first` stands in the place of `x[0]`, which is never read; no identity
/// element takes part.
pub open spec fn sum_through<T: Add<Output = T>>(first: T, x: Seq<T>, i: int) -> T
    decreases i,
{
    if i <= 0 {
        first
    } else {
        sum_through(first, x, i - 1).add_spec(x[i])
    }
}

/// The running sums of `x` when its first element is taken to be `first`.
pub open spec fn sums_from<T: Add<Output = T>>(first: T, x: Seq<T>) -> Seq<T> {
    Seq::new(x.len(), |i: int| sum_through(first, x, i))
}

/// The cumulative sum of `x`: element `i` is the left fold of `+` over
/// `x[0..=i]`.
pub open spec fn prefix_sums<T: Add<Output = T>>(x: Seq<T>) -> Seq<T> {
    sums_from(x[0], x)
}

/// Every addition that the running sums of `x` need, started at `first`, is
/// one that `+` accepts.
pub open spec fn summable_from<T: Add<Output = T>>(first: T, x: Seq<T>) -> bool {
    forall|i: int| 1 <= i < x.len() ==> (#[trigger] sum_through(first, x, i - 1)).add_req(x[i])
}

/// Every addition that the cumulative sum of `x` needs is one that `+`
/// accepts.
pub open spec fn summable<T: Add<Output = T>>(x: Seq<T>) -> bool {
    summable_from(x[0], x)
}

/// The cumulative sum of `x` may start from any clone of `x[0]`: whichever
/// one it is, every addition that follows is one that `+` accepts.
///
/// A value counts as a clone of itself, so this implies `summable(x)`; for a
/// type whose clones equal what they were cloned from the two say the same.
pub open spec fn summable_from_clone<T: Clone + Add<Output = T>>(x: Seq<T>) -> bool {
    x.len() > 0 ==> forall|first: T| #[trigger] cloned(x[0], first) ==> summable_from(first, x)
}

/// The running total that in-place accumulation leaves in slot `i`:
/// `x[i] + (x[i - 1] + (... + (x[1] + x[0])))`.
///
/// Each slot is the left operand of its own addition, the total so far the
/// right one. Where `+` commutes this is `sum_through(x[0], x, i)`.
pub open spec fn accumulated_through<T: Add<Output = T>>(x: Seq<T>, i: int) -> T
    decreases i,
{
    if i <= 0 {
        x[0]
    } else {
        x[i].add_spec(accumulated_through(x, i - 1))
    }
}

/// What `x` holds after every slot but the first has had its predecessor's
/// running total added onto it, from left to right.
pub open spec fn accumulated_sums<T: Add<Output = T>>(x: Seq<T>) -> Seq<T> {
    Seq::new(x.len(), |i: int| accumulated_through(x, i))
}

/// Every addition that accumulating `x` in place needs is one that `+`
/// accepts.
pub open spec fn accumulable<T: Add<Output = T>>(x: Seq<T>) -> bool {
    forall|i: int| 1 <= i < x.len() ==> x[i].add_req(#[trigger] accumulated_through(x, i - 1))
}

/// `y` starts with `first` and each later element is its predecessor plus the
/// element of `x` at the same place.
pub open spec fn is_running_sum_from<T: Add<Output = T>>(first: T, x: Seq<T>, y: Seq<T>) -> bool {
    &&& y.len() == x.len()
    &&& x.len() > 0 ==> y[0] == first
    &&& forall|i: int| 1 <= i < x.len() ==> #[trigger] y[i] == y[i - 1].add_spec(x[i])
}

/// `y[0] == x[0]`, and `y[i] == y[i - 1] + x[i]` from there on.
pub open spec fn is_running_sum<T: Add<Output = T>>(x: Seq<T>, y: Seq<T>) -> bool {
    is_running_sum_from(x[0], x, y)
}

/// `y[0] == x[0]`, and `y[i] == x[i] + y[i - 1]` from there on: the total so
/// far is added onto each element.
pub open spec fn is_accumulation<T: Add<Output = T>>(x: Seq<T>, y: Seq<T>) -> bool {
    &&& y.len() == x.len()
    &&& x.len() > 0 ==> y[0] == x[0]
    &&& forall|i: int| 1 <= i < x.len() ==> #[trigger] y[i] == x[i].add_spec(y[i - 1])
}

/// At every step of the cumulative sum of `x`, the total so far and the next
/// element give the same sum in either order.
pub open spec fn commutes_along<T: Add<Output = T>>(x: Seq<T>) -> bool {
    forall|i: int|
        1 <= i < x.len() ==> (#[trigger] sum_through(x[0], x, i - 1)).add_spec(x[i])
            == x[i].add_spec(sum_through(x[0], x, i - 1))
}

/// `+` on `T` takes its operands in either order: it accepts the one pair
/// when it accepts the other, and the sums are equal.
pub open spec fn add_is_symmetric<T: Add<Output = T>>() -> bool {
    forall|a: T, b: T|
        #![trigger a.add_req(b)]
        #![trigger a.add_spec(b)]
        a.add_req(b) == b.add_req(a) && a.add_spec(b) == b.add_spec(a)
}

} // verus!
