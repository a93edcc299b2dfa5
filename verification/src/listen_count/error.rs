//! Error types.

use crate::error::ProgramError;
use vstd::prelude::*;
use vstd::std_specs::convert::FromSpecImpl;

verus! {

/// Errors that the listen-count program may return.
#[derive(Clone, Copy, Debug, PartialEq, Eq, Structural)]
pub enum AgreementListenCountError {
    /// Instruction unpack error.
    InstructionUnpackError,
    /// Invalid agreement data were passed.
    InvalidAgreementData,
    /// Difference between timestamp and current time is too big.
    InvalidTimestamp,
}

impl AgreementListenCountError {
    /// The error's number: its place among the variants.
    pub open spec fn spec_code(self) -> u32 {
        match self {
            AgreementListenCountError::InstructionUnpackError => 0,
            AgreementListenCountError::InvalidAgreementData => 1,
            AgreementListenCountError::InvalidTimestamp => 2,
        }
    }

    /// The error's number.
    pub fn code(&self) -> (r: u32)
        ensures
            r == self.spec_code(),
    {
        match self {
            AgreementListenCountError::InstructionUnpackError => 0,
            AgreementListenCountError::InvalidAgreementData => 1,
            AgreementListenCountError::InvalidTimestamp => 2,
        }
    }

    /// The error with a given number, if there is one.
    pub fn from_u32(n: u32) -> (r: Option<Self>)
        ensures
            n <= 2 ==> (r matches Some(e) && e.spec_code() == n),
            n > 2 ==> r is None,
    {
        if n == 0 {
            Some(AgreementListenCountError::InstructionUnpackError)
        } else if n == 1 {
            Some(AgreementListenCountError::InvalidAgreementData)
        } else if n == 2 {
            Some(AgreementListenCountError::InvalidTimestamp)
        } else {
            None
        }
    }

    /// The name of the error type.
    pub fn type_of() -> (r: &'static str)
        ensures
            r@ == "AgreementListenCountError"@,
    {
        "AgreementListenCountError"
    }

    /// The text that describes the error.
    pub fn message(&self) -> (r: &'static str)
        ensures
            r@ == match *self {
                AgreementListenCountError::InstructionUnpackError => "Instruction unpack error"@,
                AgreementListenCountError::InvalidAgreementData => {
                    "Invalid agreement data were passed"@
                },
                AgreementListenCountError::InvalidTimestamp => {
                    "Difference between timestamp and current time is too big"@
                },
            },
    {
        match self {
            AgreementListenCountError::InstructionUnpackError => "Instruction unpack error",
            AgreementListenCountError::InvalidAgreementData => "Invalid agreement data were passed",
            AgreementListenCountError::InvalidTimestamp => {
                "Difference between timestamp and current time is too big"
            },
        }
    }
}

impl From<AgreementListenCountError> for ProgramError {
    fn from(e: AgreementListenCountError) -> (r: Self) {
        ProgramError::Custom(e.code())
    }
}

impl FromSpecImpl<AgreementListenCountError> for ProgramError {
    open spec fn obeys_from_spec() -> bool {
        true
    }

    open spec fn from_spec(e: AgreementListenCountError) -> Self {
        ProgramError::Custom(e.spec_code())
    }
}

} // verus!
