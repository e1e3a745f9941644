//! Filtering of a one-dimensional data sequence with an FIR filter, and the
//! axis-argument validation shared by the array-facing callers.
use vstd::prelude::*;

use crate::convolve::{convolve, ConvolveMode};
use crate::scalar::Scalar;
use crate::{rejects_arg, Error};

verus! {

/// Resolves a user-given axis (possibly negative, counting from the end)
/// against an array of `ndim` dimensions: a missing axis means the last
/// one, an axis outside `-ndim..ndim` is rejected by name.
pub fn check_and_get_axis(axis: Option<isize>, ndim: usize) -> (r: Result<usize, Error>)
    requires
        1 <= ndim <= isize::MAX,
    ensures
        axis is None ==> (r matches Ok(v) && v as int == ndim - 1),
        axis is Some && 0 <= axis->0 < ndim ==> (r matches Ok(v) && v as int == axis->0),
        axis is Some && -(ndim as int) <= axis->0 < 0 ==> (r matches Ok(v) && v as int == ndim
            + axis->0),
        axis is Some && !(-(ndim as int) <= axis->0 < ndim) ==> rejects_arg(r, "axis"@),
{
    let ndim_i = ndim as isize;
    if let Some(a) = axis {
        if a < -ndim_i || a >= ndim_i {
            return Err(crate::invalid_arg("axis", "index out of range."));
        }
    }
    let axis_inner: isize = match axis {
        Some(a) => a,
        None => -1,
    };
    if axis_inner >= 0 {
        Ok(axis_inner as usize)
    } else {
        Ok(ndim - ((-axis_inner) as usize))
    }
}

/// Filters the one-dimensional data sequence `x` with an FIR filter given
/// by the numerator coefficients `b` and the denominator `a`; a direct
/// implementation of the standard difference equation for `a` of length
/// one (`b` is normalized by `a[0]`). The output has the length of `x`.
///
/// The denominator must not be longer than one coefficient: the recursive
/// (IIR) path is not implemented. An empty or zero-leading `a` is rejected
/// by name, as is an `axis` other than the one axis of a one-dimensional
/// sequence. `zi` (initial delay values) is not implemented and is ignored;
/// the second element of the result is always absent, as for a call without
/// initial conditions.
pub fn lfilter<F: Scalar>(
    b: &Vec<F>,
    a: &Vec<F>,
    x: Vec<F>,
    axis: Option<isize>,
    zi: Option<Vec<F>>,
) -> (r: Result<(Vec<F>, Option<Vec<F>>), Error>)
    requires
        a@.len() <= 1,
        b@.len() >= 1,
        x@.len() >= 1,
        b@.len() + x@.len() <= usize::MAX,
    ensures
        axis is Some && !(-1 <= axis->0 < 1) ==> rejects_arg(r, "axis"@),
        (axis is None || -1 <= axis->0 < 1) && a@.len() == 0 ==> rejects_arg(
            r,
            "a"@,
        ),
        axis is None || -1 <= axis->0 < 1 ==> !rejects_arg(r, "axis"@),
        r matches Err(e) ==> (e matches Error::InvalidArg { arg: nm, .. } && (nm@ == "axis"@
            || nm@ == "a"@)),
        r matches Ok(pair) ==> pair.0@.len() == x@.len() && pair.1 is None,
{
    proof {
        // The two argument names are distinct words: their lengths differ.
        reveal_strlit("a");
        reveal_strlit("axis");
        assert("a"@.len() == 1);
        assert("axis"@.len() == 4);
        assert("a"@ != "axis"@);
    }
    let _ = zi;
    // A one-dimensional sequence has one axis; only validation remains.
    if let Err(e) = check_and_get_axis(axis, 1) {
        return Err(e);
    }

    if a.len() == 0 {
        return Err(
            crate::invalid_arg(
                "a",
                "empty denominator would give an unbounded result; consider a = [1]",
            ),
        );
    }
    if a[0].is_zero() {
        return Err(crate::invalid_arg("a", "first element of a found to be zero."));
    }

    // Normalize the numerator by the leading denominator coefficient.
    let a0 = a[0];
    let mut bn: Vec<F> = Vec::new();
    let mut j: usize = 0;
    while j < b.len()
        invariant
            j <= b@.len(),
            bn@.len() == j,
        decreases b@.len() - j,
    {
        bn.push(b[j].div(a0));
        j += 1;
    }

    // The FIR difference equation is the leading slice of the full
    // convolution of the signal with the normalized coefficients.
    let full = match convolve(&x, &bn, ConvolveMode::Full) {
        Ok(v) => v,
        Err(e) => return Err(e),
    };
    let mut out: Vec<F> = Vec::new();
    let mut j: usize = 0;
    while j < x.len()
        invariant
            j <= x@.len(),
            x@.len() <= full@.len(),
            out@.len() == j,
        decreases x@.len() - j,
    {
        out.push(full[j]);
        j += 1;
    }
    Ok((out, None))
}

} // verus!
