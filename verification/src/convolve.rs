//! Discrete linear convolution of one-dimensional signals, in the direct
//! (summation) form, with the three usual output modes.
use vstd::prelude::*;

use crate::scalar::Scalar;
use crate::Error;

verus! {

/// Convolution mode; determines behaviour near the edges and the output
/// size.
#[derive(Debug, Clone, Copy, PartialEq, Eq, Structural)]
pub enum ConvolveMode {
    /// Full convolution: the output size is `in1.len() + in2.len() - 1`.
    Full,
    /// Valid convolution: the output size is
    /// `max(in1.len(), in2.len()) - min(in1.len(), in2.len()) + 1`.
    Valid,
    /// Same convolution: the output size is `in1.len()`.
    Same,
}

/// The output length of a convolution of signals of length `m` and `n` in
/// the given mode.
pub open spec fn convolve_len(m: nat, n: nat, mode: ConvolveMode) -> nat {
    match mode {
        ConvolveMode::Full => (m + n - 1) as nat,
        ConvolveMode::Valid => (if m > n {
            m - n
        } else {
            n - m
        } + 1) as nat,
        ConvolveMode::Same => m,
    }
}

/// Computes the discrete linear convolution of `in1` with `in2` by direct
/// summation. Both signals must be non-empty; empty input is rejected
/// naming the offending argument. The output length per mode is stated by
/// [`convolve_len`].
pub fn convolve<F: Scalar>(in1: &Vec<F>, in2: &Vec<F>, mode: ConvolveMode) -> (r: Result<
    Vec<F>,
    Error,
>)
    requires
        in1@.len() + in2@.len() <= usize::MAX,
    ensures
        in1@.len() == 0 ==> crate::rejects_arg(r, "in1"@),
        in1@.len() > 0 && in2@.len() == 0 ==> crate::rejects_arg(r, "in2"@),
        in1@.len() > 0 && in2@.len() > 0 ==> (r matches Ok(out) && out@.len() == convolve_len(
            in1@.len(),
            in2@.len(),
            mode,
        )),
{
    let m = in1.len();
    let n = in2.len();
    if m == 0 {
        return Err(crate::invalid_arg("in1", "convolution input must not be empty"));
    }
    if n == 0 {
        return Err(crate::invalid_arg("in2", "convolution input must not be empty"));
    }

    // The full convolution; the other modes slice it.
    let full_len = m + n - 1;
    let mut full: Vec<F> = Vec::new();
    let mut k: usize = 0;
    while k < full_len
        invariant
            k <= full_len,
            full_len == m + n - 1,
            1 <= m,
            1 <= n,
            m == in1@.len(),
            n == in2@.len(),
            m + n <= usize::MAX,
            full@.len() == k,
        decreases full_len - k,
    {
        let mut acc = F::zero();
        let mut j: usize = if k + 1 > n {
            k + 1 - n
        } else {
            0
        };
        let hi: usize = if k + 1 < m {
            k + 1
        } else {
            m
        };
        while j < hi
            invariant
                hi <= m,
                hi <= k + 1,
                k + 1 - n <= j,
                m == in1@.len(),
                n == in2@.len(),
            decreases hi - j,
        {
            acc = acc.add(in1[j].mul(in2[k - j]));
            j += 1;
        }
        full.push(acc);
        k += 1;
    }

    match mode {
        ConvolveMode::Full => Ok(full),
        ConvolveMode::Same => {
            // Centered slice of the full result, based on the first input.
            let start = (n - 1) / 2;
            let mut out: Vec<F> = Vec::new();
            let mut j: usize = 0;
            while j < m
                invariant
                    j <= m,
                    full@.len() == full_len,
                    start + m <= full_len,
                    out@.len() == j,
                decreases m - j,
            {
                out.push(full[start + j]);
                j += 1;
            }
            Ok(out)
        },
        ConvolveMode::Valid => {
            let lo = if m < n {
                m
            } else {
                n
            };
            let hi = if m < n {
                n
            } else {
                m
            };
            let start = lo - 1;
            let out_len = hi - lo + 1;
            let mut out: Vec<F> = Vec::new();
            let mut j: usize = 0;
            while j < out_len
                invariant
                    j <= out_len,
                    full@.len() == full_len,
                    start + out_len <= full_len,
                    out@.len() == j,
                decreases out_len - j,
            {
                out.push(full[start + j]);
                j += 1;
            }
            Ok(out)
        },
    }
}

} // verus!
