//! Cumulative (running) sums of a sequence, for any element type with `+`.
//!
//! There are four entry points: the input is borrowed and a new sequence is
//! returned, or it is owned and overwritten in place; and its length is known
//! at run time or is part of its type.
//!
//! The borrowed forms return [`model::prefix_sums`], in which the total so far
//! is the left operand of each addition. The in-place forms return
//! [`model::accumulated_sums`], in which it is the right operand. The two are
//! equal wherever the additions commute, as [`laws`] shows.

pub mod dynamic;
pub mod element;
pub mod fixed;
pub mod laws;
pub mod model;

pub use dynamic::{cumsum, cumsum_owned};
pub use element::Accumulate;
pub use fixed::{cumsum_array, cumsum_array_owned};
