//! A complex number over an abstract real scalar.
//!
//! The pipeline manipulates filter roots as complex values; this type keeps
//! the two real components as plain fields so that verified code can state
//! which component goes where, while the component arithmetic itself goes
//! through [`Scalar`].
use vstd::prelude::*;

use crate::scalar::Scalar;

verus! {

/// One complex value: a pair of real components.
#[derive(Debug, Clone, Copy)]
pub struct Complex<F> {
    /// The real component.
    pub re: F,
    /// The imaginary component.
    pub im: F,
}

impl<F: Scalar> Complex<F> {
    /// Builds the complex value `re + i*im`.
    pub fn new(re: F, im: F) -> (r: Self)
        ensures
            r.re == re,
            r.im == im,
    {
        Complex { re, im }
    }

    /// The complex zero.
    pub fn zero() -> Self {
        Complex { re: F::zero(), im: F::zero() }
    }

    /// The complex one.
    pub fn one() -> Self {
        Complex { re: F::one(), im: F::zero() }
    }

    /// The complex conjugate: the imaginary component is negated, the real
    /// component is kept.
    pub fn conj(self) -> (r: Self)
        ensures
            r.re == self.re,
    {
        Complex { re: self.re, im: self.im.neg() }
    }

    /// Negation of both components.
    pub fn neg(self) -> Self {
        Complex { re: self.re.neg(), im: self.im.neg() }
    }

    /// Complex addition, componentwise.
    pub fn add(self, rhs: Self) -> Self {
        Complex { re: self.re.add(rhs.re), im: self.im.add(rhs.im) }
    }

    /// Complex subtraction, componentwise.
    pub fn sub(self, rhs: Self) -> Self {
        Complex { re: self.re.sub(rhs.re), im: self.im.sub(rhs.im) }
    }

    /// Complex multiplication.
    pub fn mul(self, rhs: Self) -> Self {
        Complex {
            re: self.re.mul(rhs.re).sub(self.im.mul(rhs.im)),
            im: self.re.mul(rhs.im).add(self.im.mul(rhs.re)),
        }
    }

    /// Complex division by the usual quotient formula, scaling by the
    /// squared magnitude of the divisor. Total like the scalar division.
    pub fn div(self, rhs: Self) -> Self {
        let d = rhs.re.mul(rhs.re).add(rhs.im.mul(rhs.im));
        Complex {
            re: self.re.mul(rhs.re).add(self.im.mul(rhs.im)).div(d),
            im: self.im.mul(rhs.re).sub(self.re.mul(rhs.im)).div(d),
        }
    }

    /// Multiplication by a real factor.
    pub fn scale(self, s: F) -> Self {
        Complex { re: self.re.mul(s), im: self.im.mul(s) }
    }

    /// The magnitude `sqrt(re*re + im*im)`.
    pub fn abs(self) -> F {
        self.re.mul(self.re).add(self.im.mul(self.im)).sqrt()
    }

    /// The complex exponential: `exp(re) * (cos(im) + i*sin(im))`.
    pub fn exp(self) -> Self {
        let r = self.re.exp();
        Complex { re: r.mul(self.im.cos()), im: r.mul(self.im.sin()) }
    }

    /// The complex hyperbolic sine:
    /// `sinh(re)*cos(im) + i*cosh(re)*sin(im)`.
    pub fn sinh(self) -> Self {
        Complex {
            re: self.re.sinh().mul(self.im.cos()),
            im: self.re.cosh().mul(self.im.sin()),
        }
    }

    /// The complex square root, by the half-angle identities: the root with
    /// a non-negative real component.
    pub fn sqrt(self) -> Self {
        let m = self.abs();
        let two = F::from_usize(2);
        let re = m.add(self.re).div(two).sqrt();
        let im_mag = m.sub(self.re).div(two).sqrt();
        let im = if self.im.lt(F::zero()) {
            im_mag.neg()
        } else {
            im_mag
        };
        Complex { re, im }
    }

    /// Whether the imaginary component is exactly zero.
    pub fn is_real(self) -> bool {
        self.im.is_zero()
    }
}

} // verus!
