//! Filter-design numerics in the style of a scientific-computing signal
//! package: analog lowpass prototypes in zero-pole-gain form, frequency-band
//! transforms, the bilinear transform, and conversion between the zero-pole-
//! gain, transfer-function and second-order-section representations.
//!
//! Every function is generic over [`scalar::Scalar`], the set of real-number
//! operations the pipeline needs. Callers instantiate the pipeline with a
//! concrete number type (typically a double-precision float) outside the
//! verified boundary; the verified code itself never touches a concrete
//! floating-point representation, so its guarantees are about structure:
//! validation, root counts, section counts, and freedom from panics.
use vstd::prelude::*;

pub mod complex;
pub mod convolve;
pub mod filtfilt;
pub mod iirfilter;
pub mod lfilter;
pub mod prototypes;
pub mod scalar;
pub mod sos;
pub mod tf;
pub mod transforms;
pub mod types;
pub mod upfirdn;
pub mod windows;

verus! {

/// Errors raised while running the library.
#[derive(Debug, PartialEq, Eq)]
pub enum Error {
    /// An argument passed into a function was invalid.
    InvalidArg {
        /// The invalid argument.
        arg: String,
        /// Why the argument is invalid.
        reason: String,
    },
    /// Two or more optional arguments passed into a function conflict.
    ConflictArg {
        /// What conflicts.
        reason: String,
    },
    /// The requested behaviour is not implemented yet.
    NotImplemented {
        /// What is missing.
        reason: String,
    },
}

/// Holds when `r` rejects the argument called `name` as invalid.
pub open spec fn rejects_arg<T>(r: Result<T, Error>, name: Seq<char>) -> bool {
    &&& r matches Err(e)
    &&& e matches Error::InvalidArg { arg, .. }
    &&& arg@ == name
}

/// Holds when `r` reports a conflict between arguments.
pub open spec fn rejects_conflict<T>(r: Result<T, Error>) -> bool {
    &&& r matches Err(e)
    &&& e is ConflictArg
}

/// Builds the rejection of one named argument.
pub(crate) fn invalid_arg(arg: &str, reason: &str) -> (e: Error)
    ensures
        e matches Error::InvalidArg { arg: a, reason: w } && a@ == arg@ && w@ == reason@,
{
    Error::InvalidArg { arg: arg.to_string(), reason: reason.to_string() }
}

/// Builds the rejection of a conflicting argument combination.
pub(crate) fn conflict_arg(reason: &str) -> (e: Error)
    ensures
        e matches Error::ConflictArg { reason: w } && w@ == reason@,
{
    Error::ConflictArg { reason: reason.to_string() }
}

/// Builds the report of behaviour that is not implemented.
pub(crate) fn not_implemented(reason: &str) -> (e: Error)
    ensures
        e matches Error::NotImplemented { reason: w } && w@ == reason@,
{
    Error::NotImplemented { reason: reason.to_string() }
}

} // verus!
