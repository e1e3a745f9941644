//! Boundary extension of a one-dimensional signal for polyphase
//! resampling: the value a virtual sample left of the start or right of
//! the end takes, for each of the supported boundary modes.
//!
//! For the modes that only relocate a sample (constant, edge, symmetric,
//! periodic, reflect) the contracts state exactly which sample comes back;
//! the remaining modes combine samples arithmetically.
use vstd::prelude::*;

use crate::scalar::Scalar;

verus! {

/// How the signal is continued beyond its ends.
#[derive(Debug, Clone, Copy, PartialEq, Eq, Structural)]
pub enum Mode {
    /// A caller-given constant value.
    Constant,
    /// Mirrored including the end sample.
    Symmetric,
    /// The end sample repeated.
    ConstantEdge,
    /// Linear continuation from the end sample (as implemented, the slope
    /// near the start couples the first two samples multiplicatively).
    Smooth,
    /// The signal repeated.
    Periodic,
    /// Mirrored around the end sample, which is not repeated.
    Reflect,
    /// Mirrored including the end sample, with the sign flipped.
    Antisymmetric,
    /// Point-mirrored around the end sample.
    Antireflect,
    /// Continued along the line through the first and last sample.
    Line,
}

/// Whether the signal is long enough for `mode` at the left boundary.
pub open spec fn left_ext_allowed(mode: Mode, len: nat) -> bool {
    match mode {
        Mode::Smooth | Mode::Reflect | Mode::Antisymmetric | Mode::Antireflect => len >= 2,
        _ => len >= 1,
    }
}

/// Whether the signal is long enough for `mode` at the right boundary.
pub open spec fn right_ext_allowed(mode: Mode, len: nat) -> bool {
    match mode {
        Mode::Smooth | Mode::Reflect | Mode::Antireflect => len >= 2,
        _ => len >= 1,
    }
}

/// The source index a symmetric extension reads for the virtual position
/// `idx < 0`, over a signal of length `m`.
pub open spec fn sym_left_at(m: int, idx: int) -> int {
    let k = -idx;
    if k < m {
        k - 1
    } else {
        let t = (k - 1) % (2 * m);
        if t < m {
            t
        } else {
            2 * m - 1 - t
        }
    }
}

/// The source index a periodic extension reads for the virtual position
/// `idx < 0`, over a signal of length `m`.
pub open spec fn per_left_at(m: int, idx: int) -> int {
    let t = (-idx - 1) % m;
    m - t - 1
}

/// The source index a reflected extension reads for the virtual position
/// `idx < 0`, over a signal of length `m`.
pub open spec fn refl_left_at(m: int, idx: int) -> int {
    let k = -idx;
    if k < m - 1 {
        k
    } else {
        let t = (k - 1) % (2 * (m - 1));
        if t < m - 1 {
            t + 1
        } else {
            2 * m - 3 - t
        }
    }
}

/// The source index a symmetric extension reads for the virtual position
/// `idx >= m`, over a signal of length `m`.
pub open spec fn sym_right_at(m: int, idx: int) -> int {
    if idx < 2 * m {
        2 * m - 1 - idx
    } else {
        let t = idx % (2 * m);
        if t < m {
            t
        } else {
            2 * m - 1 - t
        }
    }
}

/// The source index a reflected extension reads for the virtual position
/// `idx >= m`, over a signal of length `m`.
pub open spec fn refl_right_at(m: int, idx: int) -> int {
    if idx < 2 * m - 1 {
        2 * m - 2 - idx
    } else {
        let t = idx % (2 * (m - 1));
        if t < m - 1 {
            t
        } else {
            2 * m - 2 - t
        }
    }
}

/// The value the extended signal takes at the virtual position `idx`, for
/// a position left of the start (`idx < 0`).
pub fn extend_left<F: Scalar>(x: &Vec<F>, idx: isize, mode: Mode, cval: F) -> (r: F)
    requires
        isize::MIN < idx < 0,
        left_ext_allowed(mode, x@.len()),
        x@.len() <= isize::MAX / 2,
    ensures
        mode is Constant ==> r == cval,
        mode is ConstantEdge ==> r == x@[0],
        mode is Symmetric ==> r == x@[sym_left_at(x@.len() as int, idx as int)],
        mode is Periodic ==> r == x@[per_left_at(x@.len() as int, idx as int)],
        mode is Reflect ==> r == x@[refl_left_at(x@.len() as int, idx as int)],
{
    let len_x = x.len() as isize;
    match mode {
        Mode::Constant => cval,
        Mode::Symmetric => {
            if (-idx) < len_x {
                x[(-idx - 1) as usize]
            } else {
                let t = (-idx - 1) % (2 * len_x);
                if t < len_x {
                    x[t as usize]
                } else {
                    x[(len_x - 1 - (t - len_x)) as usize]
                }
            }
        },
        Mode::ConstantEdge => x[0],
        Mode::Smooth => {
            x[0].add(x[1].mul(x[0]).mul(F::from_isize(idx)))
        },
        Mode::Periodic => {
            let t = (-idx - 1) % len_x;
            x[(len_x - t - 1) as usize]
        },
        Mode::Reflect => {
            if -idx < len_x - 1 {
                x[(-idx) as usize]
            } else {
                let t = (-idx - 1) % (2 * (len_x - 1));
                if t < len_x - 1 {
                    x[(t + 1) as usize]
                } else {
                    x[(len_x - 2 - (t - (len_x - 1))) as usize]
                }
            }
        },
        Mode::Antisymmetric => {
            if -idx < len_x {
                x[(-idx - 1) as usize].neg()
            } else {
                let t = (-idx - 1) % (2 * (len_x - 1));
                if t < len_x - 1 {
                    x[t as usize].neg()
                } else {
                    x[(len_x - 2 - (t - (len_x - 1))) as usize]
                }
            }
        },
        Mode::Antireflect => {
            if -idx < len_x {
                x[0].sub(x[(-idx) as usize].sub(x[0]))
            } else {
                let le = x[0].add(
                    x[0].sub(x[(len_x - 1) as usize]).mul(
                        F::from_isize(-idx - 1).div(F::from_isize(len_x - 1)),
                    ),
                );
                let t = (-idx - 1) % (2 * (len_x - 1));
                if t < len_x - 1 {
                    le.sub(x[(t + 1) as usize].sub(x[0]))
                } else {
                    let tmp = (len_x - 2 - (t - (len_x - 1))) as usize;
                    le.sub(x[(len_x - 1) as usize].sub(x[tmp]))
                }
            }
        },
        Mode::Line => {
            let lin_slope = x[(len_x - 1) as usize].sub(x[0]).div(F::from_isize(len_x - 1));
            x[0].add(F::from_isize(idx).mul(lin_slope))
        },
    }
}

/// The value the extended signal takes at the virtual position `idx`, for
/// a position right of the end (`idx >= x.len()`).
pub fn extend_right<F: Scalar>(x: &Vec<F>, idx: isize, mode: Mode, cval: F) -> (r: F)
    requires
        x@.len() <= idx,
        right_ext_allowed(mode, x@.len()),
        x@.len() <= isize::MAX / 2,
    ensures
        mode is Constant ==> r == cval,
        mode is ConstantEdge ==> r == x@[x@.len() - 1],
        mode is Symmetric ==> r == x@[sym_right_at(x@.len() as int, idx as int)],
        mode is Periodic ==> r == x@[idx as int % x@.len() as int],
        mode is Reflect ==> r == x@[refl_right_at(x@.len() as int, idx as int)],
{
    let len_x = x.len() as isize;
    match mode {
        Mode::Constant => cval,
        Mode::Symmetric => {
            if idx < (2 * len_x) {
                x[(len_x - 1 - (idx - len_x)) as usize]
            } else {
                let t = idx % (2 * len_x);
                if t < len_x {
                    x[t as usize]
                } else {
                    x[(len_x - 1 - (t - len_x)) as usize]
                }
            }
        },
        Mode::ConstantEdge => x[(len_x - 1) as usize],
        Mode::Smooth => {
            let last = x[(len_x - 1) as usize];
            let second_last = x[(len_x - 2) as usize];
            last.add(F::from_isize(idx - len_x + 1).mul(last.sub(second_last)))
        },
        Mode::Periodic => x[(idx % len_x) as usize],
        Mode::Reflect => {
            if idx < (2 * len_x - 1) {
                x[(len_x - 2 - (idx - len_x)) as usize]
            } else {
                let t = idx % (2 * (len_x - 1));
                if t < (len_x - 1) {
                    x[t as usize]
                } else {
                    x[(len_x - 1 - (t - (len_x - 1))) as usize]
                }
            }
        },
        Mode::Antisymmetric => {
            if idx < (2 * len_x) {
                x[(len_x - 1 - (idx - len_x)) as usize].neg()
            } else {
                let t = idx % (2 * len_x);
                if t < len_x {
                    x[t as usize]
                } else {
                    x[(len_x - 1 - (t - len_x)) as usize].neg()
                }
            }
        },
        Mode::Antireflect => {
            if idx < (2 * len_x - 1) {
                let last = x[(len_x - 1) as usize];
                let u = x[(len_x - 2 - (idx - len_x)) as usize];
                last.sub(u.sub(last))
            } else {
                let last = x[(len_x - 1) as usize];
                let first = x[0];
                let re = last.add(
                    last.sub(first).mul(F::from_isize((idx / (len_x - 1)) - 1)),
                );
                let t = idx % (2 * (len_x - 1));
                if t < (len_x - 1) {
                    re.add(x[t as usize].sub(first))
                } else {
                    let u = x[(len_x - 1 - (t - (len_x - 1))) as usize];
                    re.add(last.sub(u))
                }
            }
        },
        Mode::Line => {
            let first = x[0];
            let last = x[(len_x - 1) as usize];
            let lin_slope = last.sub(first).div(F::from_isize(len_x - 1));
            last.add(F::from_isize(idx - len_x + 1).mul(lin_slope))
        },
    }
}

} // verus!
