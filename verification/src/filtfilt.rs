//! Signal extension at the boundaries, as used by forward-backward
//! filtering to damp the transients at both ends: a one-dimensional signal
//! grows by `n` samples on each side, mirrored oddly or evenly around the
//! end points or held constant.
use vstd::prelude::*;

use crate::scalar::Scalar;
use crate::{rejects_arg, Error};

verus! {

/// The sample an even extension of `x` by `n` holds at position `i`: the
/// signal mirrored around its first and last sample, end points included.
pub open spec fn even_ext_at<F>(x: Seq<F>, n: int, i: int) -> F {
    if i < n {
        x[n - i]
    } else if i < n + x.len() {
        x[i - n]
    } else {
        x[2 * x.len() - 2 - i + n]
    }
}

/// The sample a constant extension of `x` by `n` holds at position `i`:
/// the end samples repeated.
pub open spec fn const_ext_at<F>(x: Seq<F>, n: int, i: int) -> F {
    if i < n {
        x[0]
    } else if i < n + x.len() {
        x[i - n]
    } else {
        x[x.len() - 1]
    }
}

/// The kind of boundary extension used by forward-backward filtering.
#[derive(Debug, Clone, Copy, PartialEq, Eq, Structural)]
pub enum FiltFiltPadType {
    /// Odd extension: the signal continued point-mirrored around each end
    /// sample.
    Odd,
    /// Even extension: the signal continued mirrored around each end
    /// sample.
    Even,
    /// Constant extension: the end samples repeated.
    Const,
}

impl Default for FiltFiltPadType {
    /// The default extension is the odd one.
    fn default() -> (r: Self)
        ensures
            r is Odd,
    {
        FiltFiltPadType::Odd
    }
}

impl FiltFiltPadType {
    /// Extends the one-dimensional signal `x` by `n` samples at each end.
    ///
    /// An extension of zero samples returns the signal unchanged. The
    /// extension cannot be as long as the signal itself: such an `n` is
    /// rejected by name. Otherwise the result holds `n` leading samples,
    /// the signal, and `n` trailing samples; for the even and constant
    /// kinds every sample of the result is pinned down exactly, for the
    /// odd kind the extension samples are `2*end - mirrored sample`.
    pub fn ext<F: Scalar>(&self, x: &Vec<F>, n: usize) -> (r: Result<Vec<F>, Error>)
        requires
            x@.len() + 2 * n <= usize::MAX,
        ensures
            n == 0 ==> (r matches Ok(out) && out@ == x@),
            n >= 1 && n >= x@.len() ==> rejects_arg(r, "n"@),
            1 <= n < x@.len() ==> (r matches Ok(out) && out@.len() == x@.len() + 2 * n),
            1 <= n < x@.len() && self is Odd ==> (r matches Ok(out) && forall|q: int|
                0 <= q < x@.len() ==> out@[n + q] == x@[q]),
            1 <= n < x@.len() && self is Even ==> (r matches Ok(out) && forall|i: int|
                0 <= i < out@.len() ==> out@[i] == even_ext_at(x@, n as int, i)),
            1 <= n < x@.len() && self is Const ==> (r matches Ok(out) && forall|i: int|
                0 <= i < out@.len() ==> out@[i] == const_ext_at(x@, n as int, i)),
    {
        if n < 1 {
            let mut out: Vec<F> = Vec::new();
            let mut j: usize = 0;
            while j < x.len()
                invariant
                    j <= x@.len(),
                    out@ == x@.subrange(0, j as int),
                decreases x@.len() - j,
            {
                out.push(x[j]);
                j += 1;
            }
            proof {
                assert(out@ =~= x@);
            }
            return Ok(out);
        }
        if n >= x.len() {
            return Err(
                crate::invalid_arg(
                    "n",
                    "extension of array cannot be longer than array in specified axis.",
                ),
            );
        }
        let m = x.len();

        let mut out: Vec<F> = Vec::new();
        match self {
            FiltFiltPadType::Odd => {
                // Left: 2*x[0] - x[n - i]; right: 2*x[m-1] - x[m - 2 - i].
                let first = x[0];
                let mut i: usize = 0;
                while i < n
                    invariant
                        i <= n,
                        n < m,
                        m == x@.len(),
                        out@.len() == i,
                    decreases n - i,
                {
                    out.push(first.add(first).sub(x[n - i]));
                    i += 1;
                }
                let mut i: usize = 0;
                while i < m
                    invariant
                        i <= m,
                        m == x@.len(),
                        out@.len() == n + i,
                        forall|q: int| 0 <= q < i ==> out@[n + q] == x@[q],
                    decreases m - i,
                {
                    out.push(x[i]);
                    i += 1;
                }
                let last = x[m - 1];
                let mut i: usize = 0;
                while i < n
                    invariant
                        i <= n,
                        n < m,
                        m == x@.len(),
                        out@.len() == n + m + i,
                        forall|q: int| 0 <= q < m ==> out@[n + q] == x@[q],
                    decreases n - i,
                {
                    out.push(last.add(last).sub(x[m - 2 - i]));
                    i += 1;
                }
            },
            FiltFiltPadType::Even => {
                let mut i: usize = 0;
                while i < n
                    invariant
                        i <= n,
                        n < m,
                        m == x@.len(),
                        out@.len() == i,
                        forall|q: int| 0 <= q < out@.len() ==> out@[q] == even_ext_at(
                            x@,
                            n as int,
                            q,
                        ),
                    decreases n - i,
                {
                    out.push(x[n - i]);
                    i += 1;
                }
                let mut i: usize = 0;
                while i < m
                    invariant
                        i <= m,
                        n < m,
                        m == x@.len(),
                        out@.len() == n + i,
                        forall|q: int| 0 <= q < out@.len() ==> out@[q] == even_ext_at(
                            x@,
                            n as int,
                            q,
                        ),
                    decreases m - i,
                {
                    out.push(x[i]);
                    i += 1;
                }
                let mut i: usize = 0;
                while i < n
                    invariant
                        i <= n,
                        n < m,
                        m == x@.len(),
                        out@.len() == n + m + i,
                        forall|q: int| 0 <= q < out@.len() ==> out@[q] == even_ext_at(
                            x@,
                            n as int,
                            q,
                        ),
                    decreases n - i,
                {
                    out.push(x[m - 2 - i]);
                    i += 1;
                }
            },
            FiltFiltPadType::Const => {
                let first = x[0];
                let mut i: usize = 0;
                while i < n
                    invariant
                        i <= n,
                        n < m,
                        m == x@.len(),
                        first == x@[0],
                        out@.len() == i,
                        forall|q: int| 0 <= q < out@.len() ==> out@[q] == const_ext_at(
                            x@,
                            n as int,
                            q,
                        ),
                    decreases n - i,
                {
                    out.push(first);
                    i += 1;
                }
                let mut i: usize = 0;
                while i < m
                    invariant
                        i <= m,
                        n < m,
                        m == x@.len(),
                        out@.len() == n + i,
                        forall|q: int| 0 <= q < out@.len() ==> out@[q] == const_ext_at(
                            x@,
                            n as int,
                            q,
                        ),
                    decreases m - i,
                {
                    out.push(x[i]);
                    i += 1;
                }
                let last = x[m - 1];
                let mut i: usize = 0;
                while i < n
                    invariant
                        i <= n,
                        n < m,
                        m == x@.len(),
                        last == x@[x@.len() - 1],
                        out@.len() == n + m + i,
                        forall|q: int| 0 <= q < out@.len() ==> out@[q] == const_ext_at(
                            x@,
                            n as int,
                            q,
                        ),
                    decreases n - i,
                {
                    out.push(last);
                    i += 1;
                }
            },
        }
        Ok(out)
    }
}

} // verus!
