//! Frequency-band transforms and the bilinear transform, all in the
//! zero-pole-gain domain: they remap a normalized analog lowpass prototype
//! to the requested band and cutoff(s), and discretize an analog filter.
//!
//! Each transform requires a filter with at least as many poles as zeros
//! (every filter the pipeline builds satisfies this), and each states how
//! the root counts of its result follow from the root counts of its input.
use vstd::prelude::*;

use crate::complex::Complex;
use crate::scalar::Scalar;
use crate::types::ZpkFormatFilter;

verus! {

/// Product of the negated elements of `v`.
fn prod_neg<F: Scalar>(v: &Vec<Complex<F>>) -> Complex<F> {
    let mut acc: Complex<F> = Complex::one();
    let mut j: usize = 0;
    while j < v.len()
        invariant
            j <= v@.len(),
        decreases v@.len() - j,
    {
        acc = acc.mul(v[j].neg());
        j += 1;
    }
    acc
}

/// Product of `s - v_j` over the elements of `v`, for a real `s`.
fn prod_sub_from<F: Scalar>(s: F, v: &Vec<Complex<F>>) -> Complex<F> {
    let mut acc: Complex<F> = Complex::one();
    let mut j: usize = 0;
    while j < v.len()
        invariant
            j <= v@.len(),
        decreases v@.len() - j,
    {
        acc = acc.mul(Complex::new(s, F::zero()).sub(v[j]));
        j += 1;
    }
    acc
}

/// Transforms a lowpass filter prototype to a different cutoff frequency
/// `wo` (default 1), staying lowpass: every root and the gain are rescaled
/// by `wo`, so the root counts are unchanged.
pub fn lp2lp_zpk_dyn<F: Scalar>(zpk: ZpkFormatFilter<F>, wo: Option<F>) -> (r: ZpkFormatFilter<F>)
    requires
        zpk.z@.len() <= zpk.p@.len(),
    ensures
        r.z@.len() == zpk.z@.len(),
        r.p@.len() == zpk.p@.len(),
{
    let wo = match wo {
        Some(wo) => wo,
        None => F::one(),
    };
    let degree = zpk.p.len() - zpk.z.len();

    let mut z: Vec<Complex<F>> = Vec::new();
    let mut j: usize = 0;
    while j < zpk.z.len()
        invariant
            j <= zpk.z@.len(),
            z@.len() == j,
        decreases zpk.z@.len() - j,
    {
        z.push(zpk.z[j].scale(wo));
        j += 1;
    }

    let mut p: Vec<Complex<F>> = Vec::new();
    let mut j: usize = 0;
    while j < zpk.p.len()
        invariant
            j <= zpk.p@.len(),
            p@.len() == j,
        decreases zpk.p@.len() - j,
    {
        p.push(zpk.p[j].scale(wo));
        j += 1;
    }

    let k = zpk.k.mul(wo.powf(F::from_usize(degree)));
    ZpkFormatFilter::new(z, p, k)
}

/// Transforms a lowpass filter prototype to a highpass filter at cutoff
/// `wo` (default 1): every root is replaced by `wo` over it (the reciprocal
/// s-domain mapping), zeros at the origin are appended until the zero count
/// matches the pole count, and the gain absorbs the ratio of the negated
/// root products.
pub fn lp2hp_zpk_dyn<F: Scalar>(zpk: ZpkFormatFilter<F>, wo: Option<F>) -> (r: ZpkFormatFilter<F>)
    requires
        zpk.z@.len() <= zpk.p@.len(),
    ensures
        r.z@.len() == zpk.p@.len(),
        r.p@.len() == zpk.p@.len(),
{
    let wo = match wo {
        Some(wo) => wo,
        None => F::one(),
    };
    let degree = zpk.p.len() - zpk.z.len();
    let wo_c = Complex::new(wo, F::zero());

    let mut z: Vec<Complex<F>> = Vec::new();
    let mut j: usize = 0;
    while j < zpk.z.len()
        invariant
            j <= zpk.z@.len(),
            z@.len() == j,
        decreases zpk.z@.len() - j,
    {
        z.push(wo_c.div(zpk.z[j]));
        j += 1;
    }

    let mut p: Vec<Complex<F>> = Vec::new();
    let mut j: usize = 0;
    while j < zpk.p.len()
        invariant
            j <= zpk.p@.len(),
            p@.len() == j,
        decreases zpk.p@.len() - j,
    {
        p.push(wo_c.div(zpk.p[j]));
        j += 1;
    }

    // Degree-match with zeros at the origin.
    let mut j: usize = 0;
    while j < degree
        invariant
            j <= degree,
            z@.len() == zpk.z@.len() + j,
        decreases degree - j,
    {
        z.push(Complex::zero());
        j += 1;
    }

    let k = zpk.k.mul(prod_neg(&zpk.z).div(prod_neg(&zpk.p)).re);
    ZpkFormatFilter::new(z, p, k)
}

/// Transforms a lowpass filter prototype to a bandpass filter centered on
/// `wo` with bandwidth `bw` (each default 1): every root splits into the
/// conjugate pair of solutions of the quadratic band substitution, zeros at
/// the origin are appended to keep the relative degree, and the gain picks
/// up `bw` raised to the relative degree. The pole count doubles; the zero
/// count becomes the old zero count plus the old pole count.
pub fn lp2bp_zpk_dyn<F: Scalar>(
    zpk: ZpkFormatFilter<F>,
    wo: Option<F>,
    bw: Option<F>,
) -> (r: ZpkFormatFilter<F>)
    requires
        zpk.z@.len() <= zpk.p@.len(),
        zpk.p@.len() <= usize::MAX / 2,
    ensures
        r.z@.len() == zpk.z@.len() + zpk.p@.len(),
        r.p@.len() == 2 * zpk.p@.len(),
{
    let wo = match wo {
        Some(wo) => wo,
        None => F::one(),
    };
    let bw = match bw {
        Some(bw) => bw,
        None => F::one(),
    };
    let degree = zpk.p.len() - zpk.z.len();
    let half_bw = bw.div(F::from_usize(2));
    let wo2 = Complex::new(wo.mul(wo), F::zero());

    let z = band_split(&zpk.z, half_bw, wo2);
    let p = band_split(&zpk.p, half_bw, wo2);

    let mut z = z;
    let mut j: usize = 0;
    while j < degree
        invariant
            j <= degree,
            z@.len() == 2 * zpk.z@.len() + j,
        decreases degree - j,
    {
        z.push(Complex::zero());
        j += 1;
    }

    let k = zpk.k.mul(bw.powf(F::from_usize(degree)));
    ZpkFormatFilter::new(z, p, k)
}

/// Transforms a lowpass filter prototype to a bandstop filter centered on
/// `wo` with bandwidth `bw` (each default 1): every root is first inverted,
/// then split into the conjugate pair of band solutions, and zeros are
/// appended at `+i*wo` and `-i*wo` to keep the relative degree. Both root
/// counts become twice the old pole count.
pub fn lp2bs_zpk_dyn<F: Scalar>(
    zpk: ZpkFormatFilter<F>,
    wo: Option<F>,
    bw: Option<F>,
) -> (r: ZpkFormatFilter<F>)
    requires
        zpk.z@.len() <= zpk.p@.len(),
        zpk.p@.len() <= usize::MAX / 2,
    ensures
        r.z@.len() == 2 * zpk.p@.len(),
        r.p@.len() == 2 * zpk.p@.len(),
{
    let wo = match wo {
        Some(wo) => wo,
        None => F::one(),
    };
    let bw = match bw {
        Some(bw) => bw,
        None => F::one(),
    };
    let degree = zpk.p.len() - zpk.z.len();
    let half_bw_c = Complex::new(bw.div(F::from_usize(2)), F::zero());
    let wo2 = Complex::new(wo.mul(wo), F::zero());

    // Invert the roots towards highpass, then split into band pairs.
    let mut z_hp: Vec<Complex<F>> = Vec::new();
    let mut j: usize = 0;
    while j < zpk.z.len()
        invariant
            j <= zpk.z@.len(),
            z_hp@.len() == j,
        decreases zpk.z@.len() - j,
    {
        z_hp.push(half_bw_c.div(zpk.z[j]));
        j += 1;
    }
    let mut p_hp: Vec<Complex<F>> = Vec::new();
    let mut j: usize = 0;
    while j < zpk.p.len()
        invariant
            j <= zpk.p@.len(),
            p_hp@.len() == j,
        decreases zpk.p@.len() - j,
    {
        p_hp.push(half_bw_c.div(zpk.p[j]));
        j += 1;
    }

    let mut z = band_split_inverted(&z_hp, wo2);
    let p = band_split_inverted(&p_hp, wo2);

    // Degree-match with zeros at +i*wo and -i*wo.
    let mut j: usize = 0;
    while j < degree
        invariant
            j <= degree,
            z@.len() == 2 * zpk.z@.len() + j,
        decreases degree - j,
    {
        z.push(Complex::new(F::zero(), wo));
        j += 1;
    }
    let mut j: usize = 0;
    while j < degree
        invariant
            j <= degree,
            z@.len() == 2 * zpk.z@.len() + (zpk.p@.len() - zpk.z@.len()) + j,
        decreases degree - j,
    {
        z.push(Complex::new(F::zero(), wo.neg()));
        j += 1;
    }

    let k = zpk.k.mul(prod_neg(&zpk.z).div(prod_neg(&zpk.p)).re);
    ZpkFormatFilter::new(z, p, k)
}

/// For each scaled root `x`, emits the pair `x + sqrt(x^2 - wo2)` and
/// `x - sqrt(x^2 - wo2)`; the roots are first scaled by `half_bw`.
fn band_split<F: Scalar>(
    roots: &Vec<Complex<F>>,
    half_bw: F,
    wo2: Complex<F>,
) -> (r: Vec<Complex<F>>)
    requires
        roots@.len() <= usize::MAX / 2,
    ensures
        r@.len() == 2 * roots@.len(),
{
    let mut first: Vec<Complex<F>> = Vec::new();
    let mut second: Vec<Complex<F>> = Vec::new();
    let mut j: usize = 0;
    while j < roots.len()
        invariant
            j <= roots@.len(),
            first@.len() == j,
            second@.len() == j,
        decreases roots@.len() - j,
    {
        let x = roots[j].scale(half_bw);
        let d = x.mul(x).sub(wo2).sqrt();
        first.push(x.add(d));
        second.push(x.sub(d));
        j += 1;
    }
    let mut r = first;
    let mut j: usize = 0;
    while j < second.len()
        invariant
            j <= second@.len(),
            second@.len() == roots@.len(),
            r@.len() == roots@.len() + j,
        decreases second@.len() - j,
    {
        r.push(second[j]);
        j += 1;
    }
    r
}

/// For each already-inverted root `x`, emits the pair `x + sqrt(x^2 - wo2)`
/// and `x - sqrt(x^2 - wo2)`.
fn band_split_inverted<F: Scalar>(
    roots: &Vec<Complex<F>>,
    wo2: Complex<F>,
) -> (r: Vec<Complex<F>>)
    requires
        roots@.len() <= usize::MAX / 2,
    ensures
        r@.len() == 2 * roots@.len(),
{
    let mut first: Vec<Complex<F>> = Vec::new();
    let mut second: Vec<Complex<F>> = Vec::new();
    let mut j: usize = 0;
    while j < roots.len()
        invariant
            j <= roots@.len(),
            first@.len() == j,
            second@.len() == j,
        decreases roots@.len() - j,
    {
        let x = roots[j];
        let d = x.mul(x).sub(wo2).sqrt();
        first.push(x.add(d));
        second.push(x.sub(d));
        j += 1;
    }
    let mut r = first;
    let mut j: usize = 0;
    while j < second.len()
        invariant
            j <= second@.len(),
            second@.len() == roots@.len(),
            r@.len() == roots@.len() + j,
        decreases second@.len() - j,
    {
        r.push(second[j]);
        j += 1;
    }
    r
}

/// Maps an analog zero-pole-gain filter to a digital one through the
/// bilinear substitution `s -> fs*(z-1)/(z+1)` at sample rate `fs`: every
/// root moves through the substitution, zeros at `-1` are appended until the
/// zero count matches the pole count, and the gain is corrected by the real
/// part of the ratio of the polynomial evaluations at the substitution
/// point `2*fs`.
pub fn bilinear_zpk_dyn<F: Scalar>(zpk: ZpkFormatFilter<F>, fs: F) -> (r: ZpkFormatFilter<F>)
    requires
        zpk.z@.len() <= zpk.p@.len(),
    ensures
        r.z@.len() == zpk.p@.len(),
        r.p@.len() == zpk.p@.len(),
{
    let degree = zpk.p.len() - zpk.z.len();
    let fs2 = F::from_usize(2).mul(fs);
    let fs2_c = Complex::new(fs2, F::zero());

    let mut z: Vec<Complex<F>> = Vec::new();
    let mut j: usize = 0;
    while j < zpk.z.len()
        invariant
            j <= zpk.z@.len(),
            z@.len() == j,
        decreases zpk.z@.len() - j,
    {
        z.push(fs2_c.add(zpk.z[j]).div(fs2_c.sub(zpk.z[j])));
        j += 1;
    }

    let mut p: Vec<Complex<F>> = Vec::new();
    let mut j: usize = 0;
    while j < zpk.p.len()
        invariant
            j <= zpk.p@.len(),
            p@.len() == j,
        decreases zpk.p@.len() - j,
    {
        p.push(fs2_c.add(zpk.p[j]).div(fs2_c.sub(zpk.p[j])));
        j += 1;
    }

    // Any analog pole in excess of the zeros lands a digital zero at -1.
    let mut j: usize = 0;
    while j < degree
        invariant
            j <= degree,
            z@.len() == zpk.z@.len() + j,
        decreases degree - j,
    {
        z.push(Complex::new(F::one().neg(), F::zero()));
        j += 1;
    }

    let k = zpk.k.mul(prod_sub_from(fs2, &zpk.z).div(prod_sub_from(fs2, &zpk.p)).re);
    ZpkFormatFilter::new(z, p, k)
}

} // verus!
