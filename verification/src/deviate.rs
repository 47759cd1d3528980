//! The deviation capability: deciding when two values differ too much.

use vstd::prelude::*;

verus! {

/// The capability a value type must supply so that a series can decide
/// whether an incoming sample still belongs to the current run.
///
/// `deviate` answers whether `self` and `other` differ by more than
/// `max_deviation`; what "differ by" means is the value type's own
/// business (absolute numeric difference for the integer types below, but
/// a fixed-point or vector type may supply any total, always-terminating
/// comparison). The spec function `deviate_spec` gives the answer's
/// specification-level meaning, and `deviate` must agree with it.
pub trait Deviate {
    /// The specification-level meaning of [`Deviate::deviate`].
    spec fn deviate_spec(&self, other: &Self, max_deviation: &Self) -> bool;

    /// Returns whether `self` and `other` differ by more than
    /// `max_deviation`.
    fn deviate(&self, other: &Self, max_deviation: &Self) -> (r: bool)
        ensures
            r == self.deviate_spec(other, max_deviation),
    ;
}

impl Deviate for u64 {
    /// Absolute difference strictly above the threshold.
    open spec fn deviate_spec(&self, other: &Self, max_deviation: &Self) -> bool {
        (if *self >= *other {
            *self - *other
        } else {
            *other - *self
        }) > *max_deviation
    }

    fn deviate(&self, other: &Self, max_deviation: &Self) -> (r: bool) {
        let d: u64 = if *self >= *other {
            *self - *other
        } else {
            *other - *self
        };
        d > *max_deviation
    }
}

impl Deviate for i64 {
    /// Absolute difference strictly above the threshold.
    open spec fn deviate_spec(&self, other: &Self, max_deviation: &Self) -> bool {
        (if *self >= *other {
            *self - *other
        } else {
            *other - *self
        }) > *max_deviation
    }

    fn deviate(&self, other: &Self, max_deviation: &Self) -> (r: bool) {
        let a: i128 = *self as i128;
        let b: i128 = *other as i128;
        let d: i128 = if a >= b {
            a - b
        } else {
            b - a
        };
        d > *max_deviation as i128
    }
}

} // verus!
