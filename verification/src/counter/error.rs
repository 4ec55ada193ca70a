//! The failures that the counter program defines.

use vstd::prelude::*;
use vstd::std_specs::convert::FromSpecImpl;
use crate::error::ProgramError;

verus! {

/// A count that would leave the range of a signed 64-bit integer.
#[derive(Clone, Copy, Debug, PartialEq, Eq, Structural)]
pub enum CustomError {
    /// The count would exceed the largest value.
    Overflow,
    /// The count would fall below the smallest value.
    Underflow,
}

impl CustomError {
    /// The code under which the host sees this failure.
    pub open spec fn code(self) -> u32 {
        match self {
            CustomError::Overflow => 0,
            CustomError::Underflow => 1,
        }
    }

    /// The failure in words.
    pub fn message(&self) -> (r: &'static str)
        ensures
            r@ == (match *self {
                CustomError::Overflow => "Operation will overflow"@,
                CustomError::Underflow => "Operation will underflow"@,
            }),
    {
        match self {
            CustomError::Overflow => "Operation will overflow",
            CustomError::Underflow => "Operation will underflow",
        }
    }
}

impl From<CustomError> for ProgramError {
    fn from(e: CustomError) -> (r: ProgramError) {
        match e {
            CustomError::Overflow => ProgramError::Custom(0),
            CustomError::Underflow => ProgramError::Custom(1),
        }
    }
}

impl FromSpecImpl<CustomError> for ProgramError {
    open spec fn obeys_from_spec() -> bool {
        true
    }

    open spec fn from_spec(e: CustomError) -> ProgramError {
        ProgramError::Custom(e.code())
    }
}

} // verus!
