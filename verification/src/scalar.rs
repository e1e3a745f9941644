//! The real-number capability set that the design pipeline is written
//! against.
//!
//! The pipeline never computes with a concrete floating-point type: it calls
//! these operations on an abstract scalar, and a caller supplies the concrete
//! number type (for example a double-precision float) by implementing the
//! trait outside the verified library. The verifier therefore treats every
//! scalar value as opaque; what the library proves about its output is its
//! structure, not the rounded numeric values.
use vstd::prelude::*;

verus! {

/// Real-number operations used by the filter-design pipeline: the field
/// operations, ordering, a handful of transcendental functions and
/// conversions from machine integers.
///
/// Implementations are expected to behave like a real number type (an IEEE
/// float qualifies); no operation may panic.
pub trait Scalar: Sized + Copy {
    /// The additive identity.
    fn zero() -> Self;

    /// The multiplicative identity.
    fn one() -> Self;

    /// The circle constant, half a turn.
    fn pi() -> Self;

    /// The difference between one and the next larger representable value;
    /// used for tolerance checks when grouping nearly-equal roots.
    fn epsilon() -> Self;

    /// The value of `n` in this scalar type.
    fn from_usize(n: usize) -> Self;

    /// The value of `n` in this scalar type.
    fn from_isize(n: isize) -> Self;

    /// Addition.
    fn add(self, rhs: Self) -> Self;

    /// Subtraction.
    fn sub(self, rhs: Self) -> Self;

    /// Multiplication.
    fn mul(self, rhs: Self) -> Self;

    /// Division. Total: a zero divisor yields whatever the scalar type
    /// yields (an IEEE float returns an infinity or a quiet NaN).
    fn div(self, rhs: Self) -> Self;

    /// Negation.
    fn neg(self) -> Self;

    /// Absolute value.
    fn abs(self) -> Self;

    /// Square root.
    fn sqrt(self) -> Self;

    /// Sine.
    fn sin(self) -> Self;

    /// Cosine.
    fn cos(self) -> Self;

    /// Tangent.
    fn tan(self) -> Self;

    /// Natural exponential.
    fn exp(self) -> Self;

    /// Hyperbolic sine.
    fn sinh(self) -> Self;

    /// Hyperbolic cosine.
    fn cosh(self) -> Self;

    /// Inverse hyperbolic sine.
    fn asinh(self) -> Self;

    /// `self` raised to the power `e`.
    fn powf(self, e: Self) -> Self;

    /// Strict order: `self < rhs`.
    fn lt(self, rhs: Self) -> bool;

    /// Non-strict order: `self <= rhs`.
    fn le(self, rhs: Self) -> bool;

    /// Whether `self` is the additive identity.
    fn is_zero(self) -> bool;
}

} // verus!
