//! The design orchestrator: validates the arguments, picks the analog
//! lowpass prototype, pre-warps the critical frequencies, applies the band
//! transform and (for digital designs) the bilinear transform, and converts
//! to the requested output representation.
use vstd::prelude::*;

use crate::prototypes::{buttap_dyn, cheb1ap_dyn, cheb2ap_dyn};
use crate::scalar::Scalar;
use crate::sos::{sos_section_count, zpk2sos_dyn};
use crate::tf::zpk2tf_dyn;
use crate::transforms::{
    bilinear_zpk_dyn,
    lp2bp_zpk_dyn,
    lp2bs_zpk_dyn,
    lp2hp_zpk_dyn,
    lp2lp_zpk_dyn,
};
use crate::types::{
    DigitalFilter,
    FilterBandType,
    FilterOutputType,
    FilterType,
    ZpkFormatFilter,
};
use crate::{rejects_arg, rejects_conflict, Error};

verus! {

/// The band type a design call uses when none is given.
pub open spec fn spec_band(btype: Option<FilterBandType>) -> FilterBandType {
    match btype {
        Some(b) => b,
        None => FilterBandType::Bandpass,
    }
}

/// The prototype family a design call uses when none is given.
pub open spec fn spec_ftype(ftype: Option<FilterType>) -> FilterType {
    match ftype {
        Some(f) => f,
        None => FilterType::Butterworth,
    }
}

/// The output representation a design call uses when none is given.
pub open spec fn spec_output(output: Option<FilterOutputType>) -> FilterOutputType {
    match output {
        Some(o) => o,
        None => FilterOutputType::Ba,
    }
}

/// Whether a design call is analog; it is digital when nothing is given.
pub open spec fn spec_analog(analog: Option<bool>) -> bool {
    match analog {
        Some(a) => a,
        None => false,
    }
}

/// How many critical frequencies a band type needs: one to place a lowpass
/// or highpass edge, two to delimit a band.
pub open spec fn required_freqs(btype: FilterBandType) -> nat {
    match btype {
        FilterBandType::Lowpass => 1,
        FilterBandType::Highpass => 1,
        FilterBandType::Bandpass => 2,
        FilterBandType::Bandstop => 2,
    }
}

/// How many poles a design of this order has: the band transforms for
/// bandpass and bandstop double the prototype's pole count.
pub open spec fn design_pole_count(btype: FilterBandType, order: nat) -> nat {
    match btype {
        FilterBandType::Lowpass => order,
        FilterBandType::Highpass => order,
        FilterBandType::Bandpass => 2 * order,
        FilterBandType::Bandstop => 2 * order,
    }
}

/// How many zeros the analog lowpass prototype of this family has.
pub open spec fn proto_zero_count(ftype: FilterType, order: nat) -> nat {
    match ftype {
        FilterType::ChebyshevII => if order % 2 == 1 {
            (order - 1) as nat
        } else {
            order
        },
        _ => 0,
    }
}

/// How many zeros a finished design has. A digital design always ends with
/// as many zeros as poles (the bilinear transform matches the degree); an
/// analog design keeps the count the band transform produces.
pub open spec fn design_zero_count(
    ftype: FilterType,
    btype: FilterBandType,
    order: nat,
    analog: bool,
) -> nat {
    if analog {
        match btype {
            FilterBandType::Lowpass => proto_zero_count(ftype, order),
            FilterBandType::Highpass => order,
            FilterBandType::Bandpass => proto_zero_count(ftype, order) + order,
            FilterBandType::Bandstop => 2 * order,
        }
    } else {
        design_pole_count(btype, order)
    }
}

/// Whether the filter `f` is the representation `output` asks for, with the
/// root and coefficient counts that a design of `nz` zeros and `np` poles
/// yields: the counts themselves for zero-pole-gain output, one more
/// coefficient than roots per row for transfer-function output, and one
/// section per two roots for second-order-section output.
pub open spec fn design_ok_shape<F>(
    f: DigitalFilter<F>,
    output: FilterOutputType,
    nz: nat,
    np: nat,
) -> bool {
    match output {
        FilterOutputType::Zpk => f matches DigitalFilter::Zpk(zpk) && zpk.z@.len() == nz
            && zpk.p@.len() == np,
        FilterOutputType::Ba => f matches DigitalFilter::Ba(ba) && ba.b@.len() == nz + 1
            && ba.a@.len() == np + 1,
        FilterOutputType::Sos => f matches DigitalFilter::Sos(s) && s.sos@.len()
            == sos_section_count(nz, np),
    }
}

/// Whether any entry of `wn` is at or below zero.
fn any_nonpositive<F: Scalar>(wn: &Vec<F>) -> bool {
    let mut j: usize = 0;
    while j < wn.len()
        invariant
            j <= wn@.len(),
        decreases wn@.len() - j,
    {
        if wn[j].le(F::zero()) {
            return true;
        }
        j += 1;
    }
    false
}

/// Whether any entry of `wn` lies outside the open unit interval.
fn any_outside_open_unit<F: Scalar>(wn: &Vec<F>) -> bool {
    let mut j: usize = 0;
    while j < wn.len()
        invariant
            j <= wn@.len(),
        decreases wn@.len() - j,
    {
        if wn[j].le(F::zero()) || !wn[j].lt(F::one()) {
            return true;
        }
        j += 1;
    }
    false
}

/// IIR digital and analog filter design given order and critical points:
/// designs an Nth-order digital or analog filter and returns it in the
/// requested representation.
///
/// Arguments are validated up front and every rejection is returned as an
/// [`Error`] naming what was wrong; no stage of the pipeline aborts.
/// `wn` holds one critical frequency for lowpass and highpass designs and
/// two for bandpass and bandstop designs (the default band type), in the
/// units of `fs` when a sample rate is given, else Nyquist-normalized; for
/// analog designs it is an angular frequency and `fs` must be absent.
/// `rp` and `rs` are the non-negative passband ripple and stopband
/// attenuation in decibels that the Chebyshev prototypes require.
pub fn iirfilter_dyn<F: Scalar>(
    order: usize,
    wn: Vec<F>,
    rp: Option<F>,
    rs: Option<F>,
    btype: Option<FilterBandType>,
    ftype: Option<FilterType>,
    analog: Option<bool>,
    output: Option<FilterOutputType>,
    fs: Option<F>,
) -> (r: Result<DigitalFilter<F>, Error>)
    requires
        order <= usize::MAX / 4,
    ensures
        wn@.len() > 2 ==> rejects_arg(r, "wn"@),
        wn@.len() <= 2 && spec_analog(analog) && fs is Some ==> rejects_conflict(r),
        !(spec_analog(analog) && fs is Some) ==> !rejects_conflict(r),
        !(spec_ftype(ftype) is CauerElliptic || spec_ftype(ftype) is BesselThomson) ==> !(
        r matches Err(e) && e is NotImplemented),
        r is Ok ==> wn@.len() == required_freqs(spec_band(btype)),
        r is Ok ==> !(spec_analog(analog) && fs is Some),
        r is Ok ==> match spec_ftype(ftype) {
            FilterType::Butterworth => true,
            FilterType::ChebyshevI => rp is Some,
            FilterType::ChebyshevII => rs is Some,
            FilterType::CauerElliptic => false,
            FilterType::BesselThomson(_) => false,
        },
        r matches Ok(f) ==> design_ok_shape(
            f,
            spec_output(output),
            design_zero_count(
                spec_ftype(ftype),
                spec_band(btype),
                order as nat,
                spec_analog(analog),
            ),
            design_pole_count(spec_band(btype), order as nat),
        ),
        r matches Err(e) ==> e is ConflictArg || e is NotImplemented || (e matches
        Error::InvalidArg { arg: a, .. } && (a@ == "wn"@ || a@ == "rp"@ || a@ == "rs"@ || a@
            == "z"@ || a@ == "p"@ || a@ == "zpk"@)),
{
    let analog = match analog {
        Some(a) => a,
        None => false,
    };
    let ghost wn0 = wn@;
    let mut wn = wn;

    if wn.len() > 2 {
        return Err(crate::invalid_arg("wn", "wn may be of len 1 or 2"));
    }

    if let Some(fs_given) = fs {
        if analog {
            return Err(crate::conflict_arg("fs cannot be specified for an analog filter"));
        }
        // Normalize the critical frequencies by the sample rate.
        let mut j: usize = 0;
        while j < wn.len()
            invariant
                j <= wn@.len(),
                wn@.len() == wn0.len(),
            decreases wn@.len() - j,
        {
            let v = wn[j];
            wn.set(j, F::from_usize(2).mul(v).div(fs_given));
            j += 1;
        }
    }

    if any_nonpositive(&wn) {
        return Err(crate::invalid_arg("wn", "filter critical frequencies must be greater than 0"));
    }
    if wn.len() > 1 && !wn[0].lt(wn[1]) {
        return Err(crate::invalid_arg("wn", "wn[0] must be less than wn[1]"));
    }
    if let Some(rp_given) = rp {
        if rp_given.lt(F::zero()) {
            return Err(crate::invalid_arg("rp", "passband ripple (rp) must be positive"));
        }
    }
    if let Some(rs_given) = rs {
        if rs_given.lt(F::zero()) {
            return Err(crate::invalid_arg("rs", "stopband attenuation (rs) must be positive"));
        }
    }

    // The analog lowpass prototype.
    let ftype = match ftype {
        Some(f) => f,
        None => FilterType::Butterworth,
    };
    let zpk: ZpkFormatFilter<F> = match ftype {
        FilterType::Butterworth => buttap_dyn(order),
        FilterType::ChebyshevI => match rp {
            Some(rp_given) => cheb1ap_dyn(order, rp_given),
            None => {
                return Err(
                    crate::invalid_arg(
                        "rp",
                        "passband ripple (rp) must be provided to design a Chebyshev I filter",
                    ),
                );
            },
        },
        FilterType::ChebyshevII => match rs {
            Some(rs_given) => cheb2ap_dyn(order, rs_given),
            None => {
                return Err(
                    crate::invalid_arg(
                        "rs",
                        "stopband attenuation (rs) must be provided to design a Chebyshev II filter",
                    ),
                );
            },
        },
        FilterType::CauerElliptic => {
            return Err(crate::not_implemented("elliptic prototype generation"));
        },
        FilterType::BesselThomson(_) => {
            return Err(crate::not_implemented("Bessel-Thomson prototype generation"));
        },
    };

    // Pre-warp the frequencies of a digital design against the frequency
    // distortion of the bilinear transform; an analog design uses the
    // frequencies as given.
    let fs_design: F;
    let mut warped: Vec<F> = Vec::new();
    if !analog {
        if any_outside_open_unit(&wn) {
            if fs.is_some() {
                return Err(
                    crate::invalid_arg(
                        "wn",
                        "digital filter critical frequencies must be 0 < wn < fs/2",
                    ),
                );
            }
            return Err(
                crate::invalid_arg("wn", "digital filter critical frequencies must be 0 < wn < 1"),
            );
        }
        let fs2 = F::from_usize(2);
        let mut j: usize = 0;
        while j < wn.len()
            invariant
                j <= wn@.len(),
                warped@.len() == j,
            decreases wn@.len() - j,
        {
            warped.push(F::from_usize(2).mul(fs2).mul(F::pi().mul(wn[j]).div(fs2).tan()));
            j += 1;
        }
        fs_design = fs2;
    } else {
        fs_design = match fs {
            Some(f) => f,
            None => F::one(),
        };
        let mut j: usize = 0;
        while j < wn.len()
            invariant
                j <= wn@.len(),
                warped@.len() == j,
            decreases wn@.len() - j,
        {
            warped.push(wn[j]);
            j += 1;
        }
    }

    // Transform to lowpass, highpass, bandpass or bandstop.
    let btype = match btype {
        Some(b) => b,
        None => FilterBandType::Bandpass,
    };
    let zpk = match btype {
        FilterBandType::Lowpass => {
            if wn.len() != 1 {
                return Err(
                    crate::invalid_arg(
                        "wn",
                        "must specify a single critical frequency wn for lowpass or highpass filter",
                    ),
                );
            }
            lp2lp_zpk_dyn(zpk, Some(warped[0]))
        },
        FilterBandType::Highpass => {
            if wn.len() != 1 {
                return Err(
                    crate::invalid_arg(
                        "wn",
                        "must specify a single critical frequency wn for lowpass or highpass filter",
                    ),
                );
            }
            lp2hp_zpk_dyn(zpk, Some(warped[0]))
        },
        FilterBandType::Bandpass => {
            if wn.len() != 2 {
                return Err(
                    crate::invalid_arg(
                        "wn",
                        "wn must specify start and stop frequencies for bandpass or bandstop filter",
                    ),
                );
            }
            let bw = warped[1].sub(warped[0]);
            let wo = warped[0].mul(warped[1]).sqrt();
            lp2bp_zpk_dyn(zpk, Some(wo), Some(bw))
        },
        FilterBandType::Bandstop => {
            if wn.len() != 2 {
                return Err(
                    crate::invalid_arg(
                        "wn",
                        "wn must specify start and stop frequencies for bandpass or bandstop filter",
                    ),
                );
            }
            let bw = warped[1].sub(warped[0]);
            let wo = warped[0].mul(warped[1]).sqrt();
            lp2bs_zpk_dyn(zpk, Some(wo), Some(bw))
        },
    };

    // Discretize a digital design.
    let zpk = if !analog {
        bilinear_zpk_dyn(zpk, fs_design)
    } else {
        zpk
    };

    // Convert to the requested representation.
    let output = match output {
        Some(o) => o,
        None => FilterOutputType::Ba,
    };
    match output {
        FilterOutputType::Zpk => Ok(DigitalFilter::Zpk(zpk)),
        FilterOutputType::Ba => Ok(DigitalFilter::Ba(zpk2tf_dyn(&zpk.z, &zpk.p, zpk.k))),
        FilterOutputType::Sos => match zpk2sos_dyn(zpk, None, Some(analog)) {
            Ok(s) => Ok(DigitalFilter::Sos(s)),
            Err(e) => Err(e),
        },
    }
}

/// Chebyshev type I digital and analog filter design: designs an Nth-order
/// filter with `rp` decibels of passband ripple at the critical
/// frequencies `wn` and returns it in the requested representation. A
/// convenience wrapper around [`iirfilter_dyn`] with the Chebyshev type I
/// prototype selected.
pub fn cheby1_dyn<F: Scalar>(
    n: usize,
    rp: F,
    wn: Vec<F>,
    btype: Option<FilterBandType>,
    analog: Option<bool>,
    output: Option<FilterOutputType>,
    fs: Option<F>,
) -> (r: Result<DigitalFilter<F>, Error>)
    requires
        n <= usize::MAX / 4,
    ensures
        wn@.len() > 2 ==> rejects_arg(r, "wn"@),
        wn@.len() <= 2 && spec_analog(analog) && fs is Some ==> rejects_conflict(r),
        !(spec_analog(analog) && fs is Some) ==> !rejects_conflict(r),
        !(r matches Err(e) && e is NotImplemented),
        r is Ok ==> wn@.len() == required_freqs(spec_band(btype)),
        r matches Ok(f) ==> design_ok_shape(
            f,
            spec_output(output),
            design_zero_count(
                FilterType::ChebyshevI,
                spec_band(btype),
                n as nat,
                spec_analog(analog),
            ),
            design_pole_count(spec_band(btype), n as nat),
        ),
        r matches Err(e) ==> e is ConflictArg || e is NotImplemented || (e matches
        Error::InvalidArg { arg: a, .. } && (a@ == "wn"@ || a@ == "rp"@ || a@ == "rs"@ || a@
            == "z"@ || a@ == "p"@ || a@ == "zpk"@)),
{
    iirfilter_dyn(
        n,
        wn,
        Some(rp),
        None,  // rs
        btype,
        Some(FilterType::ChebyshevI),
        analog,
        output,
        fs,
    )
}

/// Chebyshev type II digital and analog filter design: designs an Nth-order
/// filter with at least `rs` decibels of stopband attenuation at the
/// critical frequencies `wn` and returns it in the requested
/// representation. A convenience wrapper around [`iirfilter_dyn`] with the
/// Chebyshev type II prototype selected.
pub fn cheby2_dyn<F: Scalar>(
    n: usize,
    rs: F,
    wn: Vec<F>,
    btype: Option<FilterBandType>,
    analog: Option<bool>,
    output: Option<FilterOutputType>,
    fs: Option<F>,
) -> (r: Result<DigitalFilter<F>, Error>)
    requires
        n <= usize::MAX / 4,
    ensures
        wn@.len() > 2 ==> rejects_arg(r, "wn"@),
        wn@.len() <= 2 && spec_analog(analog) && fs is Some ==> rejects_conflict(r),
        !(spec_analog(analog) && fs is Some) ==> !rejects_conflict(r),
        !(r matches Err(e) && e is NotImplemented),
        r is Ok ==> wn@.len() == required_freqs(spec_band(btype)),
        r matches Ok(f) ==> design_ok_shape(
            f,
            spec_output(output),
            design_zero_count(
                FilterType::ChebyshevII,
                spec_band(btype),
                n as nat,
                spec_analog(analog),
            ),
            design_pole_count(spec_band(btype), n as nat),
        ),
        r matches Err(e) ==> e is ConflictArg || e is NotImplemented || (e matches
        Error::InvalidArg { arg: a, .. } && (a@ == "wn"@ || a@ == "rp"@ || a@ == "rs"@ || a@
            == "z"@ || a@ == "p"@ || a@ == "zpk"@)),
{
    iirfilter_dyn(
        n,
        wn,
        None,  // rp
        Some(rs),
        btype,
        Some(FilterType::ChebyshevII),
        analog,
        output,
        fs,
    )
}

} // verus!
