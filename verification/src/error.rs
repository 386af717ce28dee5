//! The errors of the library.

use crate::array::Array;
use vstd::prelude::*;
use vstd::string::*;

verus! {

/// What the array operations refuse.
#[derive(Debug)]
pub struct Exception {
    pub what: String,
}

/// Why a request is refused.
#[derive(Debug)]
pub enum LoraError {
    /// The array operations refuse their operands.
    Mlx(Exception),
    /// The request does not fit the state that the model is in.
    InvalidState(String),
}

/// The error of operands that do not fit.
pub(crate) fn misfit() -> (r: LoraError)
    ensures
        r is Mlx,
{
    LoraError::Mlx(Exception { what: String::from_str("operands of unfitting shapes") })
}

/// A computation succeeds with its result where all its operands fit, and is else refused.
pub open spec fn outcome(r: Result<Array, LoraError>, out: Array) -> bool {
    match r {
        Ok(x) => out.fits && x == out,
        Err(e) => !out.fits && e is Mlx,
    }
}

/// The array, unless operands below it do not fit.
pub(crate) fn checked(x: Array) -> (r: Result<Array, LoraError>)
    ensures
        outcome(r, x),
{
    if x.fits {
        Ok(x)
    } else {
        Err(misfit())
    }
}

} // verus!
