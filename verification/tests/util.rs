//! Tests of the supporting signal utilities: convolution, FIR filtering,
//! boundary extensions, window building and the representation converters.
use sci_rs::complex::Complex;
use sci_rs::convolve::{convolve, ConvolveMode};
use sci_rs::filtfilt::FiltFiltPadType;
use sci_rs::lfilter::{check_and_get_axis, lfilter};
use sci_rs::prototypes::buttap_dyn;
use sci_rs::scalar::Scalar;
use sci_rs::sos::zpk2sos_dyn;
use sci_rs::tf::zpk2tf_dyn;
use sci_rs::transforms::{bilinear_zpk_dyn, lp2hp_zpk_dyn, lp2lp_zpk_dyn};
use sci_rs::types::ZpkFormatFilter;
use sci_rs::upfirdn::{extend_left, extend_right, Mode};
use sci_rs::windows::{extend, get_window, len_guard, truncate, GetWindowBuilder, Window};
use sci_rs::Error;

/// Double-precision scalar for running the generic utilities in tests.
#[derive(Clone, Copy, Debug, PartialEq)]
struct F64(f64);

impl Scalar for F64 {
    fn zero() -> Self {
        F64(0.0)
    }
    fn one() -> Self {
        F64(1.0)
    }
    fn pi() -> Self {
        F64(std::f64::consts::PI)
    }
    fn epsilon() -> Self {
        F64(f64::EPSILON)
    }
    fn from_usize(n: usize) -> Self {
        F64(n as f64)
    }
    fn from_isize(n: isize) -> Self {
        F64(n as f64)
    }
    fn add(self, rhs: Self) -> Self {
        F64(self.0 + rhs.0)
    }
    fn sub(self, rhs: Self) -> Self {
        F64(self.0 - rhs.0)
    }
    fn mul(self, rhs: Self) -> Self {
        F64(self.0 * rhs.0)
    }
    fn div(self, rhs: Self) -> Self {
        F64(self.0 / rhs.0)
    }
    fn neg(self) -> Self {
        F64(-self.0)
    }
    fn abs(self) -> Self {
        F64(self.0.abs())
    }
    fn sqrt(self) -> Self {
        F64(self.0.sqrt())
    }
    fn sin(self) -> Self {
        F64(self.0.sin())
    }
    fn cos(self) -> Self {
        F64(self.0.cos())
    }
    fn tan(self) -> Self {
        F64(self.0.tan())
    }
    fn exp(self) -> Self {
        F64(self.0.exp())
    }
    fn sinh(self) -> Self {
        F64(self.0.sinh())
    }
    fn cosh(self) -> Self {
        F64(self.0.cosh())
    }
    fn asinh(self) -> Self {
        F64(self.0.asinh())
    }
    fn powf(self, e: Self) -> Self {
        F64(self.0.powf(e.0))
    }
    fn lt(self, rhs: Self) -> bool {
        self.0 < rhs.0
    }
    fn le(self, rhs: Self) -> bool {
        self.0 <= rhs.0
    }
    fn is_zero(self) -> bool {
        self.0 == 0.0
    }
}

fn vf(xs: &[f64]) -> Vec<F64> {
    xs.iter().map(|x| F64(*x)).collect()
}

fn rel_eq(a: f64, b: f64, max_relative: f64) -> bool {
    if a == b {
        return true;
    }
    let diff = (a - b).abs();
    let largest = a.abs().max(b.abs());
    diff <= largest * max_relative
}

fn assert_rel(a: f64, b: f64, max_relative: f64) {
    assert!(rel_eq(a, b, max_relative), "expected {b}, got {a} (rel {max_relative})");
}

fn assert_vec_rel(actual: &[F64], expected: &[f64], max_relative: f64) {
    assert_eq!(actual.len(), expected.len());
    for (a, e) in actual.iter().zip(expected.iter()) {
        assert_rel(a.0, *e, max_relative);
    }
}

#[test]
fn test_convolve_full() {
    let in1 = vf(&[1.0, 2.0, 3.0]);
    let in2 = vf(&[4.0, 5.0, 6.0]);
    let result = convolve(&in1, &in2, ConvolveMode::Full).unwrap();
    assert_vec_rel(&result, &[4.0, 13.0, 28.0, 27.0, 18.0], 1e-10);
}

#[test]
fn test_convolve_valid() {
    let in1 = vf(&[1.0, 2.0, 5.0, 7.0]);
    let in2 = vf(&[1.4, 2.2]);
    let result = convolve(&in1, &in2, ConvolveMode::Valid).unwrap();
    assert_vec_rel(&result, &[5.0, 11.4, 20.8], 1e-10);
}

#[test]
fn test_convolve_same() {
    let in1 = vf(&[1.0, 2.0, 3.0, 4.0]);
    let in2 = vf(&[1.0, 2.0, 1.5]);
    let result = convolve(&in1, &in2, ConvolveMode::Same).unwrap();
    assert_vec_rel(&result, &[4.0, 8.5, 13.0, 12.5], 1e-10);
}

#[test]
fn convolve_rejects_empty_inputs() {
    let empty: Vec<F64> = Vec::new();
    let other = vf(&[1.0]);
    match convolve(&empty, &other, ConvolveMode::Full) {
        Err(Error::InvalidArg { arg, .. }) => assert_eq!(arg, "in1"),
        other => panic!("expected rejection, got {other:?}"),
    }
    match convolve(&other, &empty, ConvolveMode::Full) {
        Err(Error::InvalidArg { arg, .. }) => assert_eq!(arg, "in2"),
        other => panic!("expected rejection, got {other:?}"),
    }
}

#[test]
fn one_dim_fir_no_zi() {
    {
        let b = vf(&[5., 4., 1., 2.]);
        let a = vf(&[1.]);
        let x = vf(&[1., 2., 3., 4., 3., 5., 6.]);
        let expected = [5., 14., 24., 36., 38., 47., 61.];

        let Ok((result, None)) = lfilter(&b, &a, x, None, None) else {
            panic!("Should not have errored")
        };

        assert_eq!(result.len(), expected.len());
        result.into_iter().zip(expected).for_each(|(r, e)| {
            assert_eq!(r.0, e);
        })
    }
    {
        let b = vf(&[0.7, -0.3, 0.6]);
        let a = vf(&[1.]);
        let x = vf(&[1., 2., 3., 4., 3., 5., 6.]);
        let expected = [0.7, 1.1, 2.1, 3.1, 2.7, 5., 4.5];

        let Ok((result, None)) = lfilter(&b, &a, x, None, None) else {
            panic!("Should not have errored")
        };

        assert_eq!(result.len(), expected.len());
        result.into_iter().zip(expected).for_each(|(r, e)| {
            assert_rel(r.0, e, 1e-6);
        })
    }
}

#[test]
fn invalid_axis() {
    let b = vf(&[5., 4., 1., 2.]);
    let a = vf(&[1.]);
    let x = vf(&[1., 2., 3., 4., 3., 5., 6.]);

    let result = lfilter(&b, &a, x.clone(), Some(2), None);
    assert!(result.is_err());

    let result = lfilter(&b, &a, x.clone(), Some(1), None);
    assert!(result.is_err());

    let result = lfilter(&b, &a, x.clone(), Some(0), None);
    assert!(result.is_ok());

    let result = lfilter(&b, &a, x.clone(), Some(-1), None);
    assert!(result.is_ok());

    let result = lfilter(&b, &a, x, Some(-2), None);
    assert!(result.is_err());
}

#[test]
fn lfilter_rejects_zero_leading_denominator() {
    let b = vf(&[1.0]);
    let a = vf(&[0.0]);
    let x = vf(&[1.0, 2.0]);
    match lfilter(&b, &a, x, None, None) {
        Err(Error::InvalidArg { arg, .. }) => assert_eq!(arg, "a"),
        other => panic!("expected rejection, got {other:?}"),
    }
}

#[test]
fn check_and_get_axis_resolves_negative_axes() {
    assert_eq!(check_and_get_axis(None, 3).unwrap(), 2);
    assert_eq!(check_and_get_axis(Some(1), 3).unwrap(), 1);
    assert_eq!(check_and_get_axis(Some(-1), 3).unwrap(), 2);
    assert_eq!(check_and_get_axis(Some(-3), 3).unwrap(), 0);
    assert!(check_and_get_axis(Some(3), 3).is_err());
    assert!(check_and_get_axis(Some(-4), 3).is_err());
}

#[test]
fn odd_ext_doc() {
    let odd = FiltFiltPadType::Odd;
    let rows = [
        (vf(&[1., 2., 3., 4., 5.]), [-1., 0., 1., 2., 3., 4., 5., 6., 7.]),
        (vf(&[0., 1., 4., 9., 16.]), [-4., -1., 0., 1., 4., 9., 16., 23., 28.]),
    ];
    for (x, expected) in rows.iter() {
        let result = odd.ext(x, 2).expect("Could not get odd_ext.");
        assert_vec_rel(&result, expected, 1e-12);
    }
}

#[test]
fn odd_ext_limits() {
    let odd = FiltFiltPadType::Odd;
    let a = vf(&[1., 2., 3., 4.]);

    let result = odd.ext(&a, 3);
    assert!(result.is_ok());
    let result = odd.ext(&a, 4);
    assert!(result.is_err());
}

#[test]
fn even_ext_doc() {
    let even = FiltFiltPadType::Even;
    let rows = [
        (vf(&[1., 2., 3., 4., 5.]), [3., 2., 1., 2., 3., 4., 5., 4., 3.]),
        (vf(&[0., 1., 4., 9., 16.]), [4., 1., 0., 1., 4., 9., 16., 9., 4.]),
    ];
    for (x, expected) in rows.iter() {
        let result = even.ext(x, 2).expect("Could not get even_ext.");
        assert_vec_rel(&result, expected, 1e-12);
    }
}

#[test]
fn even_ext_limits() {
    let even = FiltFiltPadType::Even;
    let a = vf(&[1., 2., 3., 4.]);

    let result = even.ext(&a, 3);
    assert!(result.is_ok());
    let result = even.ext(&a, 4);
    assert!(result.is_err());
}

#[test]
fn const_ext_doc() {
    let const_ext = FiltFiltPadType::Const;
    let rows = [
        (vf(&[1., 2., 3., 4., 5.]), [1., 1., 1., 2., 3., 4., 5., 5., 5.]),
        (vf(&[0., 1., 4., 9., 16.]), [0., 0., 0., 1., 4., 9., 16., 16., 16.]),
    ];
    for (x, expected) in rows.iter() {
        let result = const_ext.ext(x, 2).expect("Could not get even_ext.");
        assert_vec_rel(&result, expected, 1e-12);
    }
}

#[test]
fn const_ext_limits() {
    let const_ext = FiltFiltPadType::Const;
    let a = vf(&[1., 2., 3., 4.]);

    let result = const_ext.ext(&a, 3);
    assert!(result.is_ok());
    let result = const_ext.ext(&a, 4);
    assert!(result.is_err());
}

#[test]
fn extend_left_relocating_modes() {
    let x = vf(&[1., 2., 3., 4.]);
    assert_eq!(extend_left(&x, -1, Mode::Constant, F64(9.)).0, 9.);
    assert_eq!(extend_left(&x, -1, Mode::ConstantEdge, F64(9.)).0, 1.);
    // symmetric: ..., 2, 1 | 1, 2, 3, 4
    assert_eq!(extend_left(&x, -1, Mode::Symmetric, F64(0.)).0, 1.);
    assert_eq!(extend_left(&x, -2, Mode::Symmetric, F64(0.)).0, 2.);
    assert_eq!(extend_left(&x, -5, Mode::Symmetric, F64(0.)).0, 4.);
    // periodic: ..., 3, 4 | 1, 2, 3, 4
    assert_eq!(extend_left(&x, -1, Mode::Periodic, F64(0.)).0, 4.);
    assert_eq!(extend_left(&x, -2, Mode::Periodic, F64(0.)).0, 3.);
    assert_eq!(extend_left(&x, -4, Mode::Periodic, F64(0.)).0, 1.);
    // reflect: ..., 3, 2 | 1, 2, 3, 4
    assert_eq!(extend_left(&x, -1, Mode::Reflect, F64(0.)).0, 2.);
    assert_eq!(extend_left(&x, -2, Mode::Reflect, F64(0.)).0, 3.);
    assert_eq!(extend_left(&x, -3, Mode::Reflect, F64(0.)).0, 4.);
    assert_eq!(extend_left(&x, -4, Mode::Reflect, F64(0.)).0, 3.);
}

#[test]
fn extend_right_relocating_modes() {
    let x = vf(&[1., 2., 3., 4.]);
    assert_eq!(extend_right(&x, 4, Mode::Constant, F64(9.)).0, 9.);
    assert_eq!(extend_right(&x, 4, Mode::ConstantEdge, F64(9.)).0, 4.);
    // symmetric: 1, 2, 3, 4 | 4, 3, 2, 1, ...
    assert_eq!(extend_right(&x, 4, Mode::Symmetric, F64(0.)).0, 4.);
    assert_eq!(extend_right(&x, 5, Mode::Symmetric, F64(0.)).0, 3.);
    assert_eq!(extend_right(&x, 8, Mode::Symmetric, F64(0.)).0, 1.);
    // periodic: 1, 2, 3, 4 | 1, 2, 3, 4, ...
    assert_eq!(extend_right(&x, 4, Mode::Periodic, F64(0.)).0, 1.);
    assert_eq!(extend_right(&x, 7, Mode::Periodic, F64(0.)).0, 4.);
    // reflect: 1, 2, 3, 4 | 3, 2, 1, 2, ...
    assert_eq!(extend_right(&x, 4, Mode::Reflect, F64(0.)).0, 3.);
    assert_eq!(extend_right(&x, 5, Mode::Reflect, F64(0.)).0, 2.);
    assert_eq!(extend_right(&x, 6, Mode::Reflect, F64(0.)).0, 1.);
    assert_eq!(extend_right(&x, 7, Mode::Reflect, F64(0.)).0, 2.);
}

#[test]
fn window_length_helpers() {
    assert!(len_guard(0));
    assert!(len_guard(1));
    assert!(!len_guard(2));

    assert_eq!(extend(10, true), (10, false));
    assert_eq!(extend(10, false), (11, true));

    let w = vf(&[1., 2., 3.]);
    let t = truncate(w.clone(), true);
    assert_eq!(t.len(), 2);
    assert_eq!(t[0].0, 1.);
    assert_eq!(t[1].0, 2.);
    let t = truncate(w, false);
    assert_eq!(t.len(), 3);
}

#[test]
fn get_window_builds_requested_window() {
    let window = get_window(GetWindowBuilder::<F64>::Hamming, 3, None);
    match window {
        Window::Hamming(h) => {
            assert_eq!(h.m, 3);
            assert!(!h.sym);
        }
        other => panic!("expected a Hamming window, got {other:?}"),
    }
    let weights = vf(&[0.5, 0.5]);
    let window = get_window(GetWindowBuilder::GeneralCosine { weights: &weights }, 8, Some(false));
    match window {
        Window::GeneralCosine(g) => {
            assert_eq!(g.m, 8);
            assert!(g.sym);
            assert_eq!(g.a.len(), 2);
            assert_eq!(g.a[0].0, 0.5);
        }
        other => panic!("expected a general cosine window, got {other:?}"),
    }
}

#[test]
fn lp2lp_scales_poles_and_gain() {
    let proto = buttap_dyn::<F64>(2);
    let scaled = lp2lp_zpk_dyn(proto, Some(F64(2.0)));
    assert_eq!(scaled.z.len(), 0);
    assert_eq!(scaled.p.len(), 2);
    for p in scaled.p.iter() {
        let mag = (p.re.0 * p.re.0 + p.im.0 * p.im.0).sqrt();
        assert_rel(mag, 2.0, 1e-12);
    }
    // k = 1 * wo^degree = 2^2
    assert_rel(scaled.k.0, 4.0, 1e-12);
}

#[test]
fn lp2hp_balances_zero_count() {
    let proto = buttap_dyn::<F64>(3);
    let hp = lp2hp_zpk_dyn(proto, Some(F64(2.0)));
    assert_eq!(hp.z.len(), 3);
    assert_eq!(hp.p.len(), 3);
    for z in hp.z.iter() {
        assert_eq!(z.re.0, 0.0);
        assert_eq!(z.im.0, 0.0);
    }
    // All prototype poles have unit magnitude, so the highpass poles have
    // magnitude wo.
    for p in hp.p.iter() {
        let mag = (p.re.0 * p.re.0 + p.im.0 * p.im.0).sqrt();
        assert_rel(mag, 2.0, 1e-12);
    }
}

#[test]
fn bilinear_matches_degree_with_zeros_at_minus_one() {
    let proto = buttap_dyn::<F64>(2);
    let digital = bilinear_zpk_dyn(proto, F64(2.0));
    assert_eq!(digital.z.len(), 2);
    assert_eq!(digital.p.len(), 2);
    for z in digital.z.iter() {
        assert_eq!(z.re.0, -1.0);
        assert_eq!(z.im.0, 0.0);
    }
    // A stable analog filter maps inside the unit circle.
    for p in digital.p.iter() {
        let mag = (p.re.0 * p.re.0 + p.im.0 * p.im.0).sqrt();
        assert!(mag < 1.0);
    }
}

#[test]
fn zpk2tf_expands_butterworth_denominator() {
    let proto = buttap_dyn::<F64>(2);
    let ba = zpk2tf_dyn(&proto.z, &proto.p, proto.k);
    assert_eq!(ba.b.len(), 1);
    assert_eq!(ba.a.len(), 3);
    assert_rel(ba.b[0].0, 1.0, 1e-12);
    assert_rel(ba.a[0].0, 1.0, 1e-12);
    assert_rel(ba.a[1].0, 2f64.sqrt(), 1e-12);
    assert_rel(ba.a[2].0, 1.0, 1e-12);
}

#[test]
fn zpk2sos_of_rootless_filter_is_one_gain_section() {
    let zpk = ZpkFormatFilter::new(Vec::new(), Vec::new(), F64(0.5));
    let sos = zpk2sos_dyn(zpk, None, Some(false)).unwrap();
    assert_eq!(sos.sos.len(), 1);
    let sec = sos.sos[0];
    assert_eq!(sec.b[0].0, 0.5);
    assert_eq!(sec.b[1].0, 0.0);
    assert_eq!(sec.b[2].0, 0.0);
    assert_eq!(sec.a[0].0, 1.0);
    assert_eq!(sec.a[1].0, 0.0);
    assert_eq!(sec.a[2].0, 0.0);
}

#[test]
fn zpk2sos_rejects_conjugate_mismatch() {
    let z: Vec<Complex<F64>> = Vec::new();
    let p = vec![
        Complex { re: F64(-0.5), im: F64(0.25) },
        Complex { re: F64(-0.5), im: F64(0.5) },
    ];
    let zpk = ZpkFormatFilter::new(z, p, F64(1.0));
    match zpk2sos_dyn(zpk, None, Some(false)) {
        Err(Error::InvalidArg { arg, .. }) => assert_eq!(arg, "p"),
        other => panic!("expected rejection, got {other:?}"),
    }
}

#[test]
fn extend_arithmetic_modes() {
    let x = vf(&[1., 2., 3., 4.]);
    // line: continue along the slope through the first and last sample
    assert_rel(extend_right(&x, 4, Mode::Line, F64(0.)).0, 5.0, 1e-12);
    assert_rel(extend_right(&x, 6, Mode::Line, F64(0.)).0, 7.0, 1e-12);
    assert_rel(extend_left(&x, -1, Mode::Line, F64(0.)).0, 0.0, 1e-12);
    // smooth: continue with the slope at the end
    assert_rel(extend_right(&x, 4, Mode::Smooth, F64(0.)).0, 5.0, 1e-12);
    // antisymmetric: mirrored with the sign flipped
    assert_rel(extend_left(&x, -1, Mode::Antisymmetric, F64(0.)).0, -1.0, 1e-12);
    assert_rel(extend_right(&x, 4, Mode::Antisymmetric, F64(0.)).0, -4.0, 1e-12);
    // antireflect: point-mirrored around the end sample
    assert_rel(extend_left(&x, -1, Mode::Antireflect, F64(0.)).0, 0.0, 1e-12);
    assert_rel(extend_right(&x, 4, Mode::Antireflect, F64(0.)).0, 5.0, 1e-12);
}
