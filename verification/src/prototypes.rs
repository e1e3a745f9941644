//! Analog lowpass prototype generators: for a given order (and ripple or
//! attenuation parameter where the family needs one) they return a
//! zero-pole-gain filter normalized to an angular cutoff frequency of 1.
use vstd::prelude::*;

use crate::complex::Complex;
use crate::scalar::Scalar;
use crate::types::ZpkFormatFilter;

verus! {

/// Returns the zero-pole-gain form of an analog prototype of an Nth-order
/// Butterworth filter: no zeros, `order` poles spread over the left half of
/// the unit circle, unit gain.
///
/// The poles are `-exp(i*pi*m/(2*order))` for `m` over the centered
/// odd-integer sequence `-order+1, -order+3, ..., order-1`.
pub fn buttap_dyn<F: Scalar>(order: usize) -> (r: ZpkFormatFilter<F>)
    requires
        order <= usize::MAX / 2,
    ensures
        r.z@.len() == 0,
        r.p@.len() == order,
{
    let two_n = F::from_usize(2 * order);
    let mut p: Vec<Complex<F>> = Vec::new();
    let mut j: usize = 0;
    while j < order
        invariant
            j <= order,
            order <= usize::MAX / 2,
            p@.len() == j,
        decreases order - j,
    {
        // the j-th entry of the centered odd-integer sequence
        let m = F::from_usize(2 * j + 1).sub(F::from_usize(order));
        let num = F::pi().mul(m);
        let c = Complex::new(F::zero(), num.div(two_n));
        p.push(c.exp().neg());
        j += 1;
    }
    ZpkFormatFilter::new(Vec::new(), p, F::one())
}

/// Returns the zero-pole-gain form of an Nth-order Chebyshev type I analog
/// lowpass prototype with `rp` decibels of passband ripple: no zeros, `n`
/// poles, and the gain that makes the DC response match the family's
/// convention (unity for odd orders, `-rp` decibels for even orders).
///
/// Order 0 degenerates to empty zero and pole sets with gain
/// `10^(-rp/20)`.
pub fn cheb1ap_dyn<F: Scalar>(n: usize, rp: F) -> (r: ZpkFormatFilter<F>)
    requires
        n <= usize::MAX / 2,
    ensures
        r.z@.len() == 0,
        r.p@.len() == n,
{
    let ten = F::from_usize(10);
    if n == 0 {
        let k = ten.powf(rp.neg().div(F::from_usize(20)));
        return ZpkFormatFilter::new(Vec::new(), Vec::new(), k);
    }

    // Ripple factor and the pole-locus parameter.
    let eps = ten.powf(rp.div(ten)).sub(F::one()).sqrt();
    let mu = F::one().div(eps).asinh().div(F::from_usize(n));

    let two_n = F::from_usize(2 * n);
    let mut p: Vec<Complex<F>> = Vec::new();
    let mut j: usize = 0;
    while j < n
        invariant
            j <= n,
            n <= usize::MAX / 2,
            p@.len() == j,
        decreases n - j,
    {
        let m = F::from_usize(2 * j + 1).sub(F::from_usize(n));
        let theta = F::pi().mul(m.div(two_n));
        p.push(Complex::new(mu, theta).sinh().neg());
        j += 1;
    }

    // The gain is the real part of the product of the negated poles,
    // corrected for even orders so the DC gain sits at -rp decibels.
    let mut acc: Complex<F> = Complex::one();
    let mut j: usize = 0;
    while j < p.len()
        invariant
            j <= p@.len(),
        decreases p@.len() - j,
    {
        acc = acc.mul(p[j].neg());
        j += 1;
    }
    let mut k = acc.re;
    if n % 2 == 0 {
        k = k.div(F::one().add(eps.mul(eps)).sqrt());
    }

    ZpkFormatFilter::new(Vec::new(), p, k)
}

/// Returns the zero-pole-gain form of an Nth-order Chebyshev type II analog
/// lowpass prototype with at least `rs` decibels of stopband attenuation:
/// zeros on the imaginary axis (`n` of them for even `n`, `n - 1` for odd
/// `n`, skipping the central index), `n` poles, and the gain that is the
/// real part of the ratio of the negated-pole product to the negated-zero
/// product.
///
/// Order 0 degenerates to empty zero and pole sets with unit gain.
pub fn cheb2ap_dyn<F: Scalar>(n: usize, rs: F) -> (r: ZpkFormatFilter<F>)
    requires
        n <= usize::MAX / 2,
    ensures
        r.p@.len() == n,
        n % 2 == 0 ==> r.z@.len() == n,
        n % 2 == 1 ==> r.z@.len() == n - 1,
{
    if n == 0 {
        return ZpkFormatFilter::new(Vec::new(), Vec::new(), F::one());
    }

    let ten = F::from_usize(10);
    // Ripple factor and the pole-locus parameter.
    let de = F::one().div(ten.powf(F::one().div(ten).mul(rs)).sub(F::one()).sqrt());
    let mu = F::one().div(de).asinh().div(F::from_usize(n));

    let two = F::from_usize(2);
    let n_f = F::from_usize(n);
    let half_step = F::pi().div(two.mul(n_f));

    // Zeros lie at -conj(i / sin(m * pi / (2n))) over the centered
    // odd-integer sequence; an odd order skips the central index, where the
    // zero would sit at infinity.
    let mut z: Vec<Complex<F>> = Vec::new();
    if n % 2 == 1 {
        let half: usize = (n - 1) / 2;
        let mut j: usize = 0;
        while j < half
            invariant
                j <= half,
                half <= n,
                n <= usize::MAX / 2,
                z@.len() == j,
            decreases half - j,
        {
            let m = F::from_usize(2 * j + 1).sub(F::from_usize(n));
            let s = m.mul(half_step).sin();
            z.push(Complex::new(F::zero(), F::one()).div(Complex::new(s, F::zero())).conj().neg());
            j += 1;
        }
        let mut j: usize = 0;
        while j < half
            invariant
                j <= half,
                half <= n / 2,
                n <= usize::MAX / 2,
                z@.len() == half + j,
            decreases half - j,
        {
            let m = F::from_usize(2 * j + 2);
            let s = m.mul(half_step).sin();
            z.push(Complex::new(F::zero(), F::one()).div(Complex::new(s, F::zero())).conj().neg());
            j += 1;
        }
    } else {
        let mut j: usize = 0;
        while j < n
            invariant
                j <= n,
                n <= usize::MAX / 2,
                z@.len() == j,
            decreases n - j,
        {
            let m = F::from_usize(2 * j + 1).sub(F::from_usize(n));
            let s = m.mul(half_step).sin();
            z.push(Complex::new(F::zero(), F::one()).div(Complex::new(s, F::zero())).conj().neg());
            j += 1;
        }
    }

    // Poles: invert the rescaled Butterworth locus.
    let sinh_mu = mu.sinh();
    let cosh_mu = mu.cosh();
    let mut p: Vec<Complex<F>> = Vec::new();
    let mut j: usize = 0;
    while j < n
        invariant
            j <= n,
            n <= usize::MAX / 2,
            p@.len() == j,
        decreases n - j,
    {
        let m = F::from_usize(2 * j + 1).sub(F::from_usize(n));
        let c = Complex::new(F::zero(), F::pi().mul(m).div(two.mul(n_f)));
        let e = c.exp().neg();
        let scaled = Complex::new(sinh_mu.mul(e.re), cosh_mu.mul(e.im));
        p.push(Complex::one().div(scaled));
        j += 1;
    }

    // Gain: real part of prod(-p) / prod(-z).
    let mut acc_p: Complex<F> = Complex::one();
    let mut j: usize = 0;
    while j < p.len()
        invariant
            j <= p@.len(),
        decreases p@.len() - j,
    {
        acc_p = acc_p.mul(p[j].neg());
        j += 1;
    }
    let mut acc_z: Complex<F> = Complex::one();
    let mut j: usize = 0;
    while j < z.len()
        invariant
            j <= z@.len(),
        decreases z@.len() - j,
    {
        acc_z = acc_z.mul(z[j].neg());
        j += 1;
    }
    let k = acc_p.div(acc_z).re;

    ZpkFormatFilter::new(z, p, k)
}

} // verus!
