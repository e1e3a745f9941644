//! Window selection: the parameter records for the supported window kinds,
//! the builder that turns a selection into a window value, and the small
//! length helpers shared by window implementations.
//!
//! Producing the window samples themselves is transcendental-function work
//! that implementors of [`GetWindow`] supply outside the verified library.
use vstd::prelude::*;

use crate::scalar::Scalar;

verus! {

/// Window representation that can produce its samples: `get_window` returns
/// a window of the length and type the implementing value describes.
pub trait GetWindow<W> {
    /// Returns the window's samples.
    fn get_window(&self) -> Vec<W>;
}

/// Handles small or incorrect window lengths: a window of at most one
/// sample needs no computation.
pub fn len_guard(m: usize) -> (r: bool)
    ensures
        r == (m <= 1),
{
    m <= 1
}

/// Extends the window length by one sample when a periodic (DFT-even)
/// window was asked for, and says whether the result must be truncated
/// back after computation.
pub fn extend(m: usize, sym: bool) -> (r: (usize, bool))
    requires
        m < usize::MAX,
    ensures
        !sym ==> r.0 == m + 1 && r.1 == true,
        sym ==> r.0 == m && r.1 == false,
{
    if !sym {
        (m + 1, true)
    } else {
        (m, false)
    }
}

/// Truncates the window by one sample when [`extend`] said it is needed.
pub fn truncate<W>(w: Vec<W>, needed: bool) -> (r: Vec<W>)
    ensures
        needed && w@.len() > 0 ==> r@ == w@.subrange(0, w@.len() - 1),
        !(needed && w@.len() > 0) ==> r@ == w@,
{
    let mut w = w;
    if needed {
        let _ = w.pop();
    }
    w
}

/// A rectangular window: no tapering at all.
#[derive(Debug, Clone, PartialEq, Eq)]
pub struct Boxcar {
    /// Number of samples.
    pub m: usize,
    /// Whether the window is symmetric (for filter design) rather than
    /// periodic (for spectral analysis).
    pub sym: bool,
}

/// A triangular window.
#[derive(Debug, Clone, PartialEq, Eq)]
pub struct Triangle {
    /// Number of samples.
    pub m: usize,
    /// Whether the window is symmetric rather than periodic.
    pub sym: bool,
}

/// A Blackman window.
#[derive(Debug, Clone, PartialEq, Eq)]
pub struct Blackman {
    /// Number of samples.
    pub m: usize,
    /// Whether the window is symmetric rather than periodic.
    pub sym: bool,
}

/// A Hamming window.
#[derive(Debug, Clone, PartialEq, Eq)]
pub struct Hamming {
    /// Number of samples.
    pub m: usize,
    /// Whether the window is symmetric rather than periodic.
    pub sym: bool,
}

/// A Nuttall window.
#[derive(Debug, Clone, PartialEq, Eq)]
pub struct Nuttall {
    /// Number of samples.
    pub m: usize,
    /// Whether the window is symmetric rather than periodic.
    pub sym: bool,
}

/// A Kaiser window.
#[derive(Debug, Clone, PartialEq)]
pub struct Kaiser<F> {
    /// Number of samples.
    pub m: usize,
    /// Shape parameter.
    pub beta: F,
    /// Whether the window is symmetric rather than periodic.
    pub sym: bool,
}

/// A generic weighted sum of cosine terms.
#[derive(Debug, Clone, PartialEq)]
pub struct GeneralCosine<F> {
    /// Number of samples.
    pub m: usize,
    /// Weighting coefficients.
    pub a: Vec<F>,
    /// Whether the window is symmetric rather than periodic.
    pub sym: bool,
}

/// A generalized Gaussian window.
#[derive(Debug, Clone, PartialEq)]
pub struct GeneralGaussian<F> {
    /// Number of samples.
    pub m: usize,
    /// Shape parameter.
    pub p: F,
    /// Standard deviation.
    pub sigma: F,
    /// Whether the window is symmetric rather than periodic.
    pub sym: bool,
}

/// A generalized Hamming window.
#[derive(Debug, Clone, PartialEq)]
pub struct GeneralHamming<F> {
    /// Number of samples.
    pub m: usize,
    /// Window coefficient.
    pub alpha: F,
    /// Whether the window is symmetric rather than periodic.
    pub sym: bool,
}

/// One of the supported window kinds, with its parameters filled in.
#[derive(Debug, Clone, PartialEq)]
pub enum Window<F> {
    /// Rectangular window.
    Boxcar(Boxcar),
    /// Triangular window.
    Triangle(Triangle),
    /// Blackman window.
    Blackman(Blackman),
    /// Hamming window.
    Hamming(Hamming),
    /// Nuttall window.
    Nuttall(Nuttall),
    /// Kaiser window; needs a shape parameter.
    Kaiser(Kaiser<F>),
    /// Weighted sum of cosine terms; needs the weights.
    GeneralCosine(GeneralCosine<F>),
    /// Generalized Gaussian; needs shape and width.
    GeneralGaussian(GeneralGaussian<F>),
    /// Generalized Hamming; needs the window coefficient.
    GeneralHamming(GeneralHamming<F>),
}

/// A window kind together with the extra parameters it needs, for use in
/// [`get_window`].
#[derive(Debug, Clone, PartialEq)]
pub enum GetWindowBuilder<'a, F> {
    /// Rectangular window.
    Boxcar,
    /// Triangular window.
    Triangle,
    /// Blackman window.
    Blackman,
    /// Hamming window.
    Hamming,
    /// Nuttall window.
    Nuttall,
    /// Kaiser window.
    Kaiser {
        /// Shape parameter.
        beta: F,
    },
    /// Weighted sum of cosine terms.
    GeneralCosine {
        /// Weighting coefficients.
        weights: &'a [F],
    },
    /// Generalized Gaussian.
    GeneralGaussian {
        /// Shape parameter.
        p: F,
        /// Standard deviation.
        width: F,
    },
    /// Generalized Hamming.
    GeneralHamming {
        /// Window coefficient.
        coefficient: F,
    },
}

/// Whether a requested window is symmetric: `fftbins` asks for a periodic
/// window and defaults to true, so its negation is the symmetry flag.
pub open spec fn spec_window_sym(fftbins: Option<bool>) -> bool {
    match fftbins {
        Some(b) => !b,
        None => false,
    }
}

/// Builds the window value of the requested kind with `nx` samples.
///
/// `fftbins` selects a periodic window (the default) over a symmetric one;
/// every field of the result is pinned down by the arguments.
pub fn get_window<F: Scalar>(
    window: GetWindowBuilder<'_, F>,
    nx: usize,
    fftbins: Option<bool>,
) -> (r: Window<F>)
    ensures
        window is Boxcar ==> (r matches Window::Boxcar(w) && w.m == nx && w.sym
            == spec_window_sym(fftbins)),
        window is Triangle ==> (r matches Window::Triangle(w) && w.m == nx && w.sym
            == spec_window_sym(fftbins)),
        window is Blackman ==> (r matches Window::Blackman(w) && w.m == nx && w.sym
            == spec_window_sym(fftbins)),
        window is Hamming ==> (r matches Window::Hamming(w) && w.m == nx && w.sym
            == spec_window_sym(fftbins)),
        window is Nuttall ==> (r matches Window::Nuttall(w) && w.m == nx && w.sym
            == spec_window_sym(fftbins)),
        window is Kaiser ==> (r matches Window::Kaiser(w) && w.m == nx && w.beta
            == window->Kaiser_beta && w.sym == spec_window_sym(fftbins)),
        window is GeneralCosine ==> (r matches Window::GeneralCosine(w) && w.m == nx && w.a@
            == window->GeneralCosine_weights@ && w.sym == spec_window_sym(fftbins)),
        window is GeneralGaussian ==> (r matches Window::GeneralGaussian(w) && w.m == nx && w.p
            == window->GeneralGaussian_p && w.sigma == window->GeneralGaussian_width && w.sym
            == spec_window_sym(fftbins)),
        window is GeneralHamming ==> (r matches Window::GeneralHamming(w) && w.m == nx && w.alpha
            == window->GeneralHamming_coefficient && w.sym == spec_window_sym(fftbins)),
{
    let sym = !(match fftbins {
        Some(b) => b,
        None => true,
    });
    match window {
        GetWindowBuilder::Boxcar => Window::Boxcar(Boxcar { m: nx, sym }),
        GetWindowBuilder::Triangle => Window::Triangle(Triangle { m: nx, sym }),
        GetWindowBuilder::Blackman => Window::Blackman(Blackman { m: nx, sym }),
        GetWindowBuilder::Hamming => Window::Hamming(Hamming { m: nx, sym }),
        GetWindowBuilder::Nuttall => Window::Nuttall(Nuttall { m: nx, sym }),
        GetWindowBuilder::Kaiser { beta } => Window::Kaiser(Kaiser { m: nx, beta, sym }),
        GetWindowBuilder::GeneralCosine { weights } => {
            let mut a: Vec<F> = Vec::new();
            let mut j: usize = 0;
            while j < weights.len()
                invariant
                    j <= weights@.len(),
                    a@ == weights@.subrange(0, j as int),
                decreases weights@.len() - j,
            {
                a.push(weights[j]);
                j += 1;
            }
            proof {
                assert(a@ =~= weights@);
            }
            Window::GeneralCosine(GeneralCosine { m: nx, a, sym })
        },
        GetWindowBuilder::GeneralGaussian { p, width } => Window::GeneralGaussian(
            GeneralGaussian { m: nx, p, sigma: width, sym },
        ),
        GetWindowBuilder::GeneralHamming { coefficient } => Window::GeneralHamming(
            GeneralHamming { m: nx, alpha: coefficient, sym },
        ),
    }
}

} // verus!
