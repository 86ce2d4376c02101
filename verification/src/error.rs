//! The program's own error and the form in which the runtime sees it.

use solana_program::program_error::ProgramError;
use vstd::prelude::*;
use vstd::std_specs::convert::FromSpecImpl;

verus! {

/// Why a well-formed instruction is turned down.
#[derive(Clone, Copy, Debug, PartialEq, Eq, Structural)]
pub enum Errors {
    /// The customer is too young to be served.
    Ineligible,
}

/// The runtime's error type. Nothing is read from it here.
#[verifier::external_type_specification]
#[verifier::external_body]
pub struct ExProgramError(ProgramError);

/// The runtime's program-specific error with the given number,
/// `ProgramError::Custom(code)`.
pub uninterp spec fn custom_error(code: u32) -> ProgramError;

/// Builds `ProgramError::Custom(code)`.
///
/// Trusted: the result is that variant with that number, whatever the number.
#[verifier::external_body]
fn program_error_custom(code: u32) -> (e: ProgramError)
    ensures
        e == custom_error(code),
{
    ProgramError::Custom(code)
}

impl Errors {
    /// The number under which this error is reported to the runtime: its
    /// position among the variants.
    pub open spec fn spec_code(self) -> u32 {
        match self {
            Errors::Ineligible => 0u32,
        }
    }

    /// The text that describes this error.
    pub open spec fn spec_message(self) -> Seq<char> {
        match self {
            Errors::Ineligible => "Not eligible to drink beer"@,
        }
    }

    /// The number under which this error is reported to the runtime.
    pub fn code(self) -> (code: u32)
        ensures
            code == self.spec_code(),
    {
        match self {
            Errors::Ineligible => 0,
        }
    }

    /// The text that describes this error.
    pub fn message(self) -> (text: String)
        ensures
            text@ == self.spec_message(),
    {
        match self {
            Errors::Ineligible => String::from_str("Not eligible to drink beer"),
        }
    }
}

impl From<Errors> for ProgramError {
    /// The program-specific error of the runtime that carries this error's
    /// number.
    fn from(e: Errors) -> (r: ProgramError) {
        program_error_custom(e.code())
    }
}

impl FromSpecImpl<Errors> for ProgramError {
    open spec fn obeys_from_spec() -> bool {
        true
    }

    open spec fn from_spec(e: Errors) -> ProgramError {
        custom_error(e.spec_code())
    }
}

} // verus!
