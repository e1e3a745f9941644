//! Conversion from zero-pole-gain form to cascaded second-order sections.
//!
//! The pairing rule is deterministic and documented here: roots are grouped
//! into conjugate pairs and reals, the remaining pole closest to instability
//! (the unit circle for digital filters, the imaginary axis for analog ones)
//! is taken first and paired with its nearest zeros, and the sections are
//! emitted so that the most sensitive section comes last in the cascade.
//! The overall gain is folded into the first section's numerator.
use vstd::prelude::*;

use crate::complex::Complex;
use crate::scalar::Scalar;
use crate::tf::poly;
use crate::types::{Sos, SosFormatFilter, ZpkFormatFilter};
use crate::Error;

verus! {

/// Which rule groups the roots into sections.
#[derive(Debug, Clone, Copy, PartialEq, Eq, Structural)]
pub enum SosPairing {
    /// Pad zeros and poles to an even, equal count and pair each worst pole
    /// with its nearest zero; the default for digital filters.
    Nearest,
    /// Consume the roots without padding, allowing a first-order section;
    /// the only rule allowed for analog filters.
    Minimal,
}

/// How many sections a conversion of `nz` zeros and `np` poles yields: one
/// section for every two roots of the larger set, rounded up, and a single
/// gain-only section for a filter with no roots at all.
pub open spec fn sos_section_count(nz: nat, np: nat) -> nat {
    if nz == 0 && np == 0 {
        1
    } else if nz > np {
        (nz + 1) / 2
    } else {
        (np + 1) / 2
    }
}

/// Which zeros a pairing step may select.
enum ZeroKind {
    /// Only zeros on the real axis.
    RealOnly,
    /// Only zeros off the real axis.
    ComplexOnly,
    /// Any remaining zero.
    Either,
}

/// Whether the sorted roots `zp[e - 1]` and `zp[e]` have nearly the same
/// real part, so they belong to one run when ordering conjugate halves.
fn run_continues<F: Scalar>(zp: &Vec<Complex<F>>, e: usize, tol: F) -> bool
    requires
        1 <= e < zp@.len(),
{
    zp[e].re.sub(zp[e - 1].re).le(tol.mul(zp[e - 1].abs()))
}

/// Stable insertion sort of the whole vector, ordering by real part and
/// breaking ties by the magnitude of the imaginary part.
fn sort_roots<F: Scalar>(v: &mut Vec<Complex<F>>)
    ensures
        final(v)@.len() == old(v)@.len(),
{
    if v.len() == 0 {
        return ;
    }
    let mut i: usize = 1;
    while i < v.len()
        invariant
            1 <= i,
            v@.len() == old(v)@.len(),
        decreases v@.len() - i,
    {
        let mut j: usize = i;
        while j > 0
            invariant
                j <= i,
                i < v@.len(),
                v@.len() == old(v)@.len(),
            decreases j,
        {
            let a = v[j];
            let b = v[j - 1];
            let earlier = a.re.lt(b.re) || (!b.re.lt(a.re) && a.im.abs().lt(b.im.abs()));
            if earlier {
                v.set(j, b);
                v.set(j - 1, a);
                j -= 1;
            } else {
                j = 0;
            }
        }
        i += 1;
    }
}

/// Stable insertion sort of `v[s..e]` by the magnitude of the imaginary
/// part; the rest of the vector is untouched.
fn sort_range_by_abs_im<F: Scalar>(v: &mut Vec<Complex<F>>, s: usize, e: usize)
    requires
        s <= e,
        e <= old(v)@.len(),
    ensures
        final(v)@.len() == old(v)@.len(),
{
    if s == e {
        return ;
    }
    let mut i: usize = s + 1;
    while i < e
        invariant
            s < i,
            e <= v@.len(),
            v@.len() == old(v)@.len(),
        decreases e - i,
    {
        let mut j: usize = i;
        while j > s
            invariant
                s <= j <= i,
                i < e,
                e <= v@.len(),
                v@.len() == old(v)@.len(),
            decreases j,
        {
            let a = v[j];
            let b = v[j - 1];
            if a.im.abs().lt(b.im.abs()) {
                v.set(j, b);
                v.set(j - 1, a);
                j -= 1;
            } else {
                j = s;
            }
        }
        i += 1;
    }
}

/// Splits the roots into one representative per conjugate pair (`zc`, the
/// upper-half member averaged with the mirrored lower-half member) and the
/// real roots (`zr`, imaginary parts dropped). Roots are real when their
/// imaginary part is negligible against their magnitude; a complex root
/// without a mirror partner is rejected, naming the offending argument.
fn cplx_real<F: Scalar>(v: &Vec<Complex<F>>, arg: &str) -> (r: Result<
    (Vec<Complex<F>>, Vec<Complex<F>>),
    Error,
>)
    ensures
        r matches Ok(pair) ==> 2 * pair.0@.len() + pair.1@.len() == v@.len(),
        r matches Err(e) ==> (e matches Error::InvalidArg { arg: a, .. } && a@ == arg@),
{
    let tol = F::from_usize(100).mul(F::epsilon());
    let mut w = v.clone();
    sort_roots(&mut w);

    let mut zr: Vec<Complex<F>> = Vec::new();
    let mut zp: Vec<Complex<F>> = Vec::new();
    let mut zn: Vec<Complex<F>> = Vec::new();
    let mut j: usize = 0;
    while j < w.len()
        invariant
            j <= w@.len(),
            w@.len() == v@.len(),
            zr@.len() + zp@.len() + zn@.len() == j,
        decreases w@.len() - j,
    {
        let x = w[j];
        if x.im.abs().le(tol.mul(x.abs())) {
            zr.push(Complex::new(x.re, F::zero()));
        } else if F::zero().lt(x.im) {
            zp.push(x);
        } else {
            zn.push(x);
        }
        j += 1;
    }
    if zp.len() != zn.len() {
        return Err(crate::invalid_arg(arg, "complex roots must come in conjugate pairs"));
    }

    // Runs of nearly-equal real part may interleave their members after the
    // global sort; order each run of both halves by imaginary magnitude so
    // the halves line up.
    let mut s: usize = 0;
    while s < zp.len()
        invariant
            zn@.len() == zp@.len(),
            2 * zp@.len() + zr@.len() == v@.len(),
        decreases zp@.len() - s,
    {
        let mut e: usize = s + 1;
        while e < zp.len() && run_continues(&zp, e, tol)
            invariant
                s < e,
                e <= zp@.len(),
            decreases zp@.len() - e,
        {
            e += 1;
        }
        sort_range_by_abs_im(&mut zp, s, e);
        sort_range_by_abs_im(&mut zn, s, e);
        s = e;
    }

    // Pair each upper-half root with its mirrored lower-half partner.
    let half = F::one().div(F::from_usize(2));
    let mut zc: Vec<Complex<F>> = Vec::new();
    let mut j: usize = 0;
    while j < zp.len()
        invariant
            j <= zp@.len(),
            zn@.len() == zp@.len(),
            2 * zp@.len() + zr@.len() == v@.len(),
            zc@.len() == j,
        decreases zp@.len() - j,
    {
        let a = zp[j];
        let b = zn[j].conj();
        if tol.mul(zn[j].abs()).lt(a.sub(b).abs()) {
            return Err(crate::invalid_arg(arg, "complex roots must come in conjugate pairs"));
        }
        zc.push(a.add(b).scale(half));
        j += 1;
    }
    Ok((zc, zr))
}

/// The number of roots in `v` whose imaginary part is exactly zero.
fn count_real<F: Scalar>(v: &Vec<Complex<F>>) -> usize {
    let mut c: usize = 0;
    let mut j: usize = 0;
    while j < v.len()
        invariant
            j <= v@.len(),
            c <= j,
        decreases v@.len() - j,
    {
        if v[j].is_real() {
            c += 1;
        }
        j += 1;
    }
    c
}

/// The first index of the remaining pole closest to instability: nearest
/// the unit circle for a digital filter, nearest the imaginary axis for an
/// analog one. With `only_real` set, only poles on the real axis compete.
fn idx_worst<F: Scalar>(p: &Vec<Complex<F>>, analog: bool, only_real: bool) -> (r: Option<usize>)
    ensures
        r matches Some(i) ==> i < p@.len(),
{
    let mut found = false;
    let mut bi: usize = 0;
    let mut bd = F::zero();
    let mut j: usize = 0;
    while j < p.len()
        invariant
            j <= p@.len(),
            found ==> bi < j,
        decreases p@.len() - j,
    {
        if !only_real || p[j].is_real() {
            let d = if analog {
                p[j].re.abs()
            } else {
                F::one().sub(p[j].abs()).abs()
            };
            if !found || d.lt(bd) {
                found = true;
                bi = j;
                bd = d;
            }
        }
        j += 1;
    }
    if found {
        Some(bi)
    } else {
        None
    }
}

/// The first index of the zero of the requested kind nearest to `to`.
fn nearest_zero_idx<F: Scalar>(fro: &Vec<Complex<F>>, to: Complex<F>, kind: ZeroKind) -> (r: Option<
    usize,
>)
    ensures
        r matches Some(i) ==> i < fro@.len(),
{
    let mut found = false;
    let mut bi: usize = 0;
    let mut bd = F::zero();
    let mut j: usize = 0;
    while j < fro.len()
        invariant
            j <= fro@.len(),
            found ==> bi < j,
        decreases fro@.len() - j,
    {
        let wanted = match kind {
            ZeroKind::RealOnly => fro[j].is_real(),
            ZeroKind::ComplexOnly => !fro[j].is_real(),
            ZeroKind::Either => true,
        };
        if wanted {
            let d = fro[j].sub(to).abs();
            if !found || d.lt(bd) {
                found = true;
                bi = j;
                bd = d;
            }
        }
        j += 1;
    }
    if found {
        Some(bi)
    } else {
        None
    }
}

/// Right-aligns up to three polynomial coefficients into one section row.
fn coeff_row<F: Scalar>(c: &Vec<Complex<F>>) -> [F; 3]
    requires
        1 <= c@.len() <= 3,
{
    if c.len() == 1 {
        [F::zero(), F::zero(), c[0].re]
    } else if c.len() == 2 {
        [F::zero(), c[0].re, c[1].re]
    } else {
        [c[0].re, c[1].re, c[2].re]
    }
}

/// Builds one unit-gain section from at most two zeros and two poles.
fn single_section<F: Scalar>(zs: &Vec<Complex<F>>, ps: &Vec<Complex<F>>) -> Sos<F>
    requires
        zs@.len() <= 2,
        ps@.len() <= 2,
{
    let bb = poly(zs);
    let aa = poly(ps);
    Sos::new(coeff_row(&bb), coeff_row(&aa))
}

/// The rejection used when the remaining roots cannot be grouped by the
/// pairing rule; with roots from a real-coefficient design it never fires.
fn pairing_failure() -> (e: Error)
    ensures
        e matches Error::InvalidArg { arg: a, .. } && a@ == "zpk"@,
{
    crate::invalid_arg("zpk", "roots could not be paired into second-order sections")
}

/// Converts a zero-pole-gain filter into cascaded second-order sections.
///
/// The pairing rule defaults to [`SosPairing::Nearest`] for digital filters
/// and [`SosPairing::Minimal`] for analog ones; requesting the nearest rule
/// for an analog filter is a conflict. Sections are ordered with the pole
/// pair closest to instability last, and the gain is folded into the first
/// section's numerator row. On success the section count is one per two
/// roots of the larger root set, rounded up (one gain-only section for a
/// rootless filter).
pub fn zpk2sos_dyn<F: Scalar>(
    zpk: ZpkFormatFilter<F>,
    pairing: Option<SosPairing>,
    analog: Option<bool>,
) -> (r: Result<SosFormatFilter<F>, Error>)
    requires
        zpk.z@.len() <= usize::MAX - 2,
        zpk.p@.len() <= usize::MAX - 2,
    ensures
        r matches Ok(s) ==> s.sos@.len() == sos_section_count(zpk.z@.len(), zpk.p@.len()),
        analog matches Some(true) && pairing matches Some(w) && w is Nearest
            ==> crate::rejects_conflict(r),
        !(analog matches Some(true) && pairing matches Some(w) && w is Nearest)
            ==> !crate::rejects_conflict(r),
        zpk.z@.len() == 0 && zpk.p@.len() == 0 && !(analog matches Some(true)
            && pairing matches Some(w) && w is Nearest) ==> r is Ok,
        r matches Err(e) ==> e is ConflictArg || (e matches Error::InvalidArg { arg: a, .. } && (
        a@ == "z"@ || a@ == "p"@ || a@ == "zpk"@)),
{
    let ghost nz0 = zpk.z@.len();
    let ghost np0 = zpk.p@.len();

    let analog_flag = match analog {
        Some(a) => a,
        None => false,
    };
    let rule = match pairing {
        Some(w) => w,
        None => if analog_flag {
            SosPairing::Minimal
        } else {
            SosPairing::Nearest
        },
    };
    if analog_flag && matches!(rule, SosPairing::Nearest) {
        return Err(crate::conflict_arg("an analog filter must use minimal pairing"));
    }

    if zpk.z.len() == 0 && zpk.p.len() == 0 {
        // A rootless filter is a single gain-only section.
        let sec = if analog_flag {
            Sos::new([F::zero(), F::zero(), zpk.k], [F::zero(), F::zero(), F::one()])
        } else {
            Sos::new([zpk.k, F::zero(), F::zero()], [F::one(), F::zero(), F::zero()])
        };
        let mut sos: Vec<Sos<F>> = Vec::new();
        sos.push(sec);
        return Ok(SosFormatFilter { sos });
    }

    let mut z = zpk.z;
    let mut p = zpk.p;
    let k = zpk.k;

    if matches!(rule, SosPairing::Minimal) {
        if z.len() > p.len() {
            return Err(
                crate::invalid_arg("z", "minimal pairing needs no more zeros than poles"),
            );
        }
    } else {
        // Pad the shorter root set with roots at the origin.
        while z.len() < p.len()
            invariant
                p@.len() == np0,
                nz0 <= z@.len(),
                nz0 <= np0 ==> z@.len() <= np0,
                nz0 > np0 ==> z@.len() == nz0,
            decreases p@.len() - z@.len(),
        {
            z.push(Complex::zero());
        }
        while p.len() < z.len()
            invariant
                z@.len() == if nz0 > np0 {
                    nz0
                } else {
                    np0
                },
                np0 <= p@.len() <= z@.len(),
            decreases z@.len() - p@.len(),
        {
            p.push(Complex::zero());
        }
    }
    let n_sections = (p.len() + 1) / 2;
    assert(n_sections == sos_section_count(nz0, np0));

    if matches!(rule, SosPairing::Nearest) && p.len() % 2 == 1 {
        // Keep the pairing loop two-by-two: one more root at the origin.
        z.push(Complex::zero());
        p.push(Complex::zero());
    }

    // One representative per conjugate pair, then the real roots.
    let (zc, zr) = match cplx_real(&z, "z") {
        Ok(t) => t,
        Err(e) => return Err(e),
    };
    let (pc, pr) = match cplx_real(&p, "p") {
        Ok(t) => t,
        Err(e) => return Err(e),
    };
    let mut zz = zc;
    let mut j: usize = 0;
    while j < zr.len()
        invariant
            j <= zr@.len(),
            zz@.len() <= usize::MAX - zr@.len() + j,
        decreases zr@.len() - j,
    {
        zz.push(zr[j]);
        j += 1;
    }
    let mut pp = pc;
    let mut j: usize = 0;
    while j < pr.len()
        invariant
            j <= pr@.len(),
            pp@.len() <= usize::MAX - pr@.len() + j,
        decreases pr@.len() - j,
    {
        pp.push(pr[j]);
        j += 1;
    }

    // Take the worst remaining pole, pair it, and emit a section; the
    // sections are built worst-first and reversed below, so the cascade
    // ends with the most sensitive section.
    let mut sections: Vec<Sos<F>> = Vec::new();
    let mut si: usize = 0;
    while si < n_sections
        invariant
            si <= n_sections,
            sections@.len() == si,
            !(analog matches Some(true) && pairing matches Some(w) && w is Nearest),
            zpk.z@.len() > 0 || zpk.p@.len() > 0,
        decreases n_sections - si,
    {
        let p1_idx = match idx_worst(&pp, analog_flag, false) {
            Some(i) => i,
            None => return Err(pairing_failure()),
        };
        let p1 = pp.remove(p1_idx);
        let preal = count_real(&pp);

        let sec: Sos<F>;
        if p1.is_real() && preal == 0 {
            // The last remaining real pole.
            if matches!(rule, SosPairing::Nearest) {
                let z1_idx = match nearest_zero_idx(&zz, p1, ZeroKind::RealOnly) {
                    Some(i) => i,
                    None => return Err(pairing_failure()),
                };
                let z1 = zz.remove(z1_idx);
                sec = single_section(&vec![z1, Complex::zero()], &vec![p1, Complex::zero()]);
            } else if zz.len() > 0 {
                let z1_idx = match nearest_zero_idx(&zz, p1, ZeroKind::RealOnly) {
                    Some(i) => i,
                    None => return Err(pairing_failure()),
                };
                let z1 = zz.remove(z1_idx);
                sec = single_section(&vec![z1], &vec![p1]);
            } else {
                let no_zeros: Vec<Complex<F>> = Vec::new();
                sec = single_section(&no_zeros, &vec![p1]);
            }
        } else if zz.len() > 0 && pp.len() == zz.len() - 1 && !p1.is_real() && preal == 1
            && count_real(&zz) == 1 {
            // One real pole and one real zero are left over, with as many
            // zeros as poles: this complex pole must take a complex zero,
            // or the leftovers could not pair.
            let z1_idx = match nearest_zero_idx(&zz, p1, ZeroKind::ComplexOnly) {
                Some(i) => i,
                None => return Err(pairing_failure()),
            };
            let z1 = zz.remove(z1_idx);
            sec = single_section(&vec![z1, z1.conj()], &vec![p1, p1.conj()]);
        } else {
            let p2: Complex<F>;
            if p1.is_real() {
                let p2_idx = match idx_worst(&pp, analog_flag, true) {
                    Some(i) => i,
                    None => return Err(pairing_failure()),
                };
                p2 = pp.remove(p2_idx);
            } else {
                p2 = p1.conj();
            }
            if zz.len() > 0 {
                let z1_idx = match nearest_zero_idx(&zz, p1, ZeroKind::Either) {
                    Some(i) => i,
                    None => return Err(pairing_failure()),
                };
                let z1 = zz.remove(z1_idx);
                if !z1.is_real() {
                    sec = single_section(&vec![z1, z1.conj()], &vec![p1, p2]);
                } else if zz.len() > 0 {
                    let z2_idx = match nearest_zero_idx(&zz, p1, ZeroKind::RealOnly) {
                        Some(i) => i,
                        None => return Err(pairing_failure()),
                    };
                    let z2 = zz.remove(z2_idx);
                    sec = single_section(&vec![z1, z2], &vec![p1, p2]);
                } else {
                    sec = single_section(&vec![z1], &vec![p1, p2]);
                }
            } else {
                let no_zeros: Vec<Complex<F>> = Vec::new();
                sec = single_section(&no_zeros, &vec![p1, p2]);
            }
        }
        sections.push(sec);
        si += 1;
    }

    // Reverse so the worst section lands last in the cascade.
    let mut sos: Vec<Sos<F>> = Vec::new();
    let mut j: usize = sections.len();
    while j > 0
        invariant
            j <= sections@.len(),
            sos@.len() + j == sections@.len(),
        decreases j,
    {
        j -= 1;
        sos.push(sections[j]);
    }

    // Fold the gain into the first section's numerator.
    let s0 = sos[0];
    let scaled = Sos::new([s0.b[0].mul(k), s0.b[1].mul(k), s0.b[2].mul(k)], s0.a);
    sos.set(0, scaled);
    Ok(SosFormatFilter { sos })
}

} // verus!
