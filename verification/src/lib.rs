//! Core policy of a two-representation complex-number package.
//!
//! A complex number is carried either in rectangular form (real and
//! imaginary components) or in polar form (argument and modulus).  The
//! arithmetic itself runs on IEEE doubles and lives with the caller; what
//! this crate holds, states and proves is the part of the package that is
//! exact in itself: which quadrant correction the argument of a rectangular
//! value receives, and the normalization discipline on polar arguments
//! (single wrap after a product or quotient, complement under conjugation,
//! full reduction into one turn).

use vstd::prelude::*;

pub mod angle;
pub mod quadrant;

verus! {

/// Capability shared by both representations of a complex number:
/// taking the complex conjugate, the reflection across the real axis.
///
/// A rectangular carrier conjugates by negating its imaginary component;
/// a polar carrier by complementing its argument within a full turn
/// (see [`angle::complement`]).
pub trait Complex: Sized {
    /// Returns the complex conjugate of `self`.
    fn conjugate(&self) -> Self;
}

} // verus!
