//! The data model of the design pipeline: zero-pole-gain filters,
//! transfer-function coefficients, second-order sections, and the enums that
//! select a band type, a prototype family and an output representation.
use vstd::prelude::*;

use crate::complex::Complex;

verus! {

/// A rational transfer function `k * prod(s - z_i) / prod(s - p_i)` given by
/// its zeros, poles and real gain.
#[derive(Debug, Clone)]
pub struct ZpkFormatFilter<F> {
    /// Zeros of the transfer function.
    pub z: Vec<Complex<F>>,
    /// Poles of the transfer function.
    pub p: Vec<Complex<F>>,
    /// Real system gain.
    pub k: F,
}

impl<F> ZpkFormatFilter<F> {
    /// Builds a zero-pole-gain filter from its parts.
    pub fn new(z: Vec<Complex<F>>, p: Vec<Complex<F>>, k: F) -> (r: Self)
        ensures
            r.z == z,
            r.p == p,
            r.k == k,
    {
        ZpkFormatFilter { z, p, k }
    }
}

/// Numerator (`b`) and denominator (`a`) polynomial coefficients of a
/// transfer function, in descending powers.
#[derive(Debug, Clone)]
pub struct BaFormatFilter<F> {
    /// Numerator coefficients.
    pub b: Vec<F>,
    /// Denominator coefficients.
    pub a: Vec<F>,
}

impl<F> BaFormatFilter<F> {
    /// Builds a transfer-function filter from its coefficient rows.
    pub fn new(b: Vec<F>, a: Vec<F>) -> (r: Self)
        ensures
            r.b == b,
            r.a == a,
    {
        BaFormatFilter { b, a }
    }
}

/// One second-order (biquad) section: three numerator and three denominator
/// coefficients, the denominator normalized so its leading coefficient is 1.
#[derive(Debug, Clone, Copy)]
pub struct Sos<F> {
    /// Numerator coefficients of this section.
    pub b: [F; 3],
    /// Denominator coefficients of this section.
    pub a: [F; 3],
}

impl<F> Sos<F> {
    /// Builds one section from its coefficient rows.
    pub fn new(b: [F; 3], a: [F; 3]) -> (r: Self)
        ensures
            r.b == b,
            r.a == a,
    {
        Sos { b, a }
    }
}

/// A filter as a cascade of second-order sections; the full transfer
/// function is the product of the sections.
#[derive(Debug, Clone)]
pub struct SosFormatFilter<F> {
    /// The cascaded sections.
    pub sos: Vec<Sos<F>>,
}

/// The one output representation produced by a design call, selected by the
/// requested output kind.
#[derive(Debug, Clone)]
pub enum DigitalFilter<F> {
    /// Zero-pole-gain representation.
    Zpk(ZpkFormatFilter<F>),
    /// Transfer-function (numerator/denominator) representation.
    Ba(BaFormatFilter<F>),
    /// Second-order-section representation.
    Sos(SosFormatFilter<F>),
}

/// Which frequency band the designed filter passes; determines how many
/// critical frequencies are required (one for lowpass/highpass, two for
/// bandpass/bandstop) and which band transform runs.
#[derive(Debug, Clone, Copy, PartialEq, Eq, Structural)]
pub enum FilterBandType {
    /// Passes frequencies below the cutoff.
    Lowpass,
    /// Passes frequencies above the cutoff.
    Highpass,
    /// Passes frequencies between the two cutoffs.
    Bandpass,
    /// Rejects frequencies between the two cutoffs.
    Bandstop,
}

/// Normalization conventions for a Bessel-Thomson prototype.
#[derive(Debug, Clone, Copy, PartialEq, Eq, Structural)]
pub enum BesselNorm {
    /// Phase-matched normalization.
    Phase,
    /// Group-delay normalization.
    Delay,
    /// Magnitude normalization.
    Mag,
}

/// Which analog prototype family the design starts from.
#[derive(Debug, Clone, Copy, PartialEq, Eq, Structural)]
pub enum FilterType {
    /// Maximally flat magnitude response.
    Butterworth,
    /// Equiripple passband; requires the passband ripple `rp`.
    ChebyshevI,
    /// Equiripple stopband; requires the stopband attenuation `rs`.
    ChebyshevII,
    /// Elliptic (Cauer) response; not implemented yet.
    CauerElliptic,
    /// Bessel-Thomson response; not implemented yet.
    BesselThomson(BesselNorm),
}

/// Which representation a design call returns.
#[derive(Debug, Clone, Copy, PartialEq, Eq, Structural)]
pub enum FilterOutputType {
    /// Transfer-function coefficients.
    Ba,
    /// Zeros, poles and gain.
    Zpk,
    /// Second-order sections.
    Sos,
}

} // verus!
