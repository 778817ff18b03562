//! The element types that cumulative sums are taken over.

use std::ops::Add;
use vstd::prelude::*;
use vstd::std_specs::ops::AddSpec;

verus! {

/// A type whose values can be added from borrowed operands and accumulated in
/// place.
///
/// Both operations mean the `+` of the type: they are permitted where
/// `add_req` holds and give what `add_spec` gives. An implementation proves
/// that of its own code.
pub trait Accumulate: Add<Output = Self> + Sized {
    /// `self + rhs`, as a new value; neither operand is consumed.
    fn add_ref(&self, rhs: &Self) -> (sum: Self)
        requires
            self.add_req(*rhs),
        ensures
            sum == self.add_spec(*rhs),
    ;

    /// `self += rhs`.
    fn accumulate(&mut self, rhs: &Self)
        requires
            old(self).add_req(*rhs),
        ensures
            *final(self) == old(self).add_spec(*rhs),
    ;
}

impl Accumulate for u8 {
    fn add_ref(&self, rhs: &Self) -> (sum: Self) {
        *self + *rhs
    }

    fn accumulate(&mut self, rhs: &Self) {
        *self += *rhs;
    }
}

impl Accumulate for u16 {
    fn add_ref(&self, rhs: &Self) -> (sum: Self) {
        *self + *rhs
    }

    fn accumulate(&mut self, rhs: &Self) {
        *self += *rhs;
    }
}

impl Accumulate for u32 {
    fn add_ref(&self, rhs: &Self) -> (sum: Self) {
        *self + *rhs
    }

    fn accumulate(&mut self, rhs: &Self) {
        *self += *rhs;
    }
}

impl Accumulate for u64 {
    fn add_ref(&self, rhs: &Self) -> (sum: Self) {
        *self + *rhs
    }

    fn accumulate(&mut self, rhs: &Self) {
        *self += *rhs;
    }
}

impl Accumulate for u128 {
    fn add_ref(&self, rhs: &Self) -> (sum: Self) {
        *self + *rhs
    }

    fn accumulate(&mut self, rhs: &Self) {
        *self += *rhs;
    }
}

impl Accumulate for usize {
    fn add_ref(&self, rhs: &Self) -> (sum: Self) {
        *self + *rhs
    }

    fn accumulate(&mut self, rhs: &Self) {
        *self += *rhs;
    }
}

impl Accumulate for i8 {
    fn add_ref(&self, rhs: &Self) -> (sum: Self) {
        *self + *rhs
    }

    fn accumulate(&mut self, rhs: &Self) {
        *self += *rhs;
    }
}

impl Accumulate for i16 {
    fn add_ref(&self, rhs: &Self) -> (sum: Self) {
        *self + *rhs
    }

    fn accumulate(&mut self, rhs: &Self) {
        *self += *rhs;
    }
}

impl Accumulate for i32 {
    fn add_ref(&self, rhs: &Self) -> (sum: Self) {
        *self + *rhs
    }

    fn accumulate(&mut self, rhs: &Self) {
        *self += *rhs;
    }
}

impl Accumulate for i64 {
    fn add_ref(&self, rhs: &Self) -> (sum: Self) {
        *self + *rhs
    }

    fn accumulate(&mut self, rhs: &Self) {
        *self += *rhs;
    }
}

impl Accumulate for i128 {
    fn add_ref(&self, rhs: &Self) -> (sum: Self) {
        *self + *rhs
    }

    fn accumulate(&mut self, rhs: &Self) {
        *self += *rhs;
    }
}

impl Accumulate for isize {
    fn add_ref(&self, rhs: &Self) -> (sum: Self) {
        *self + *rhs
    }

    fn accumulate(&mut self, rhs: &Self) {
        *self += *rhs;
    }
}

} // verus!
