//! The arithmetic that solvers ask of their numbers and vectors.
//!
//! The library computes with no number type of its own. A solver is generic
//! in its scalars and vectors and reaches them through the traits below; what
//! it returns is stated over the results of these operations.

use vstd::prelude::*;

verus! {

/// A number a solver computes with.
pub trait Scalar: Sized {
    /// The number zero.
    fn zero() -> Self;

    /// The number one.
    fn one() -> Self;

    /// The value that stands for a number not yet set.
    fn nan() -> Self;

    /// Whether `self` is at most `other`.
    fn at_most(&self, other: &Self) -> bool;

    /// The lesser of `self` and `other`.
    fn min(&self, other: &Self) -> Self;

    /// `self` with its sign changed.
    fn neg(&self) -> Self;

    /// The product of `self` and `other`.
    fn times(&self, other: &Self) -> Self;

    /// The quotient of `self` by `other`.
    fn over(&self, other: &Self) -> Self;

    /// `self` raised to the power `exponent`.
    fn powi(&self, exponent: i32) -> Self;
}

/// A vector with scalars `F` on which matrices `H` act as bilinear forms.
pub trait VectorSpace<F, H>: Sized {
    /// The Euclidean length of `self`.
    fn norm(&self) -> F;

    /// The form `weight` applied to `self` and `other`.
    fn weighted_dot(&self, weight: &H, other: &Self) -> F;

    /// `self` with every component multiplied by `factor`.
    fn scale(&self, factor: &F) -> Self;
}

} // verus!
