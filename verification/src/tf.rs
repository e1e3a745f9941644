//! Conversion from zero-pole-gain form to transfer-function coefficients:
//! the zero and pole sets are expanded into polynomial coefficient rows in
//! descending powers, and the numerator row is scaled by the gain.
use vstd::prelude::*;

use crate::complex::Complex;
use crate::scalar::Scalar;
use crate::types::BaFormatFilter;

verus! {

/// Expands `prod(x - roots_j)` into monic polynomial coefficients in
/// descending powers: one more coefficient than there are roots.
pub(crate) fn poly<F: Scalar>(roots: &Vec<Complex<F>>) -> (c: Vec<Complex<F>>)
    requires
        roots@.len() < usize::MAX,
    ensures
        c@.len() == roots@.len() + 1,
{
    let mut c: Vec<Complex<F>> = Vec::new();
    c.push(Complex::one());
    let mut j: usize = 0;
    while j < roots.len()
        invariant
            j <= roots@.len(),
            roots@.len() < usize::MAX,
            c@.len() == j + 1,
        decreases roots@.len() - j,
    {
        // Multiply the coefficient row by (x - r).
        let r = roots[j];
        let mut next: Vec<Complex<F>> = Vec::new();
        next.push(c[0]);
        let mut i: usize = 1;
        while i < c.len()
            invariant
                1 <= i <= c@.len(),
                next@.len() == i,
        decreases c@.len() - i,
        {
            next.push(c[i].sub(r.mul(c[i - 1])));
            i += 1;
        }
        next.push(r.mul(c[c.len() - 1]).neg());
        c = next;
        j += 1;
    }
    c
}

/// Converts a zero-pole-gain filter to transfer-function form: the
/// numerator row is the gain times the expanded zero polynomial (one more
/// entry than there are zeros), the denominator row is the expanded pole
/// polynomial (one more entry than there are poles). Only the real parts
/// are kept; for root sets in conjugate pairs the imaginary parts cancel.
pub fn zpk2tf_dyn<F: Scalar>(z: &Vec<Complex<F>>, p: &Vec<Complex<F>>, k: F) -> (r: BaFormatFilter<
    F,
>)
    requires
        z@.len() < usize::MAX,
        p@.len() < usize::MAX,
    ensures
        r.b@.len() == z@.len() + 1,
        r.a@.len() == p@.len() + 1,
{
    let num = poly(z);
    let den = poly(p);

    let mut b: Vec<F> = Vec::new();
    let mut j: usize = 0;
    while j < num.len()
        invariant
            j <= num@.len(),
            b@.len() == j,
        decreases num@.len() - j,
    {
        b.push(k.mul(num[j].re));
        j += 1;
    }

    let mut a: Vec<F> = Vec::new();
    let mut j: usize = 0;
    while j < den.len()
        invariant
            j <= den@.len(),
            a@.len() == j,
        decreases den@.len() - j,
    {
        a.push(den[j].re);
        j += 1;
    }

    BaFormatFilter::new(b, a)
}

} // verus!
