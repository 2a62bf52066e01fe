//! The exact core of an Earth-orientation toolkit: precession, nutation,
//! sidereal time, the CIO locator, and the conversion between geodetic and
//! geocentric positions.
//!
//! The library holds the numbers of the models and takes their decisions;
//! the floating-point arithmetic between them is left to the caller.
//!
//! - The numbers: the constants, the coefficients of every polynomial, the
//!   reference ellipsoids, and the terms of the series for the CIO locator in
//!   the order in which they are summed. Each is proved to be its published
//!   value, exactly or as double-precision arithmetic rounds it.
//! - The decisions: which arguments a transformation refuses, which case a
//!   position falls under, which part of a date is the day, whether an angle
//!   is taken at all and whether a full turn is added to it.
//!
//! Double-precision numbers cross this library as their IEEE 754 encodings
//! (see [`binary64`]), so that what is decided on them, and what they stand
//! for, can be stated exactly.

use vstd::prelude::*;
use vstd::string::StringExecFns;

pub mod binary64;
pub mod constants;
pub mod earth;
pub mod ellipsoid;
pub mod fundamental_argument;
pub mod misc;
pub mod prenut;
pub mod time;
pub mod transform;
pub mod vectors_and_matrices;

pub use binary64::Binary64;
pub use ellipsoid::Ellipsoid;

verus! {

/// What a function reports instead of a result.
#[derive(Debug, PartialEq, Eq)]
pub enum ErfaError {
    /// The argument named `value` is outside the domain of `function`.
    InvalidValue { function: &'static str, value: &'static str },
    /// The arguments of `function` are each well formed, but together they
    /// describe nothing that exists.
    Unrealistic { function: &'static str },
}

impl ErfaError {
    /// The text of the error.
    pub open spec fn message_text(self) -> Seq<char> {
        match self {
            ErfaError::InvalidValue { function, value } => "Function "@ + function@
                + " indicated that value '"@ + value@ + "' is invalid"@,
            ErfaError::Unrealistic { function } => "Function "@ + function@
                + " indicated that it received unrealistic inputs"@,
        }
    }

    /// The error as a sentence for the user.
    pub fn message(&self) -> (text: String)
        ensures
            text@ == self.message_text(),
    {
        match self {
            ErfaError::InvalidValue { function, value } => {
                String::from_str("Function ").concat(function).concat(
                    " indicated that value '",
                ).concat(value).concat("' is invalid")
            },
            ErfaError::Unrealistic { function } => {
                String::from_str("Function ").concat(function).concat(
                    " indicated that it received unrealistic inputs",
                )
            },
        }
    }
}

} // verus!
