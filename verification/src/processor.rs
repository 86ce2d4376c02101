//! What the program does with one instruction.

use crate::error::Errors;
use crate::instruction::{decode, DecodeError, InstructionData};
use vstd::prelude::*;

verus! {

/// The age from which a customer is served.
pub const LEGAL_AGE: u8 = 18;

/// The line that welcomes the customer `name`.
pub open spec fn welcome_line(name: Seq<char>) -> Seq<char> {
    "Welcome to the bar, "@ + name
}

/// Whether a customer of `age` years is served.
pub open spec fn admission(age: u8) -> Result<(), Errors> {
    if age >= LEGAL_AGE {
        Ok(())
    } else {
        Err(Errors::Ineligible)
    }
}

/// What became of a well-formed instruction.
#[derive(Debug)]
pub struct Processed {
    /// The line to log, whether or not the customer is served.
    pub greeting: String,
    /// Whether the customer is served.
    pub verdict: Result<(), Errors>,
}

impl InstructionData {
    /// The line that welcomes this customer.
    pub fn greeting(&self) -> (line: String)
        ensures
            line@ == welcome_line(self@.name),
    {
        String::from_str("Welcome to the bar, ").concat(self.name())
    }

    /// Serves the customer, or turns them away for their age.
    pub fn check_age(&self) -> (verdict: Result<(), Errors>)
        ensures
            verdict == admission(self@.age),
    {
        if self.age() >= LEGAL_AGE {
            Ok(())
        } else {
            Err(Errors::Ineligible)
        }
    }
}

/// Handles one instruction: decodes it, greets the customer, and decides by
/// their age whether they are served. Data that is no instruction is
/// refused before anyone is greeted.
pub fn process_instruction(instruction_data: &[u8]) -> (r: Result<Processed, DecodeError>)
    ensures
        match decode(instruction_data@) {
            Ok(record) => r matches Ok(done) && done.greeting@ == welcome_line(record.name)
                && done.verdict == admission(record.age),
            Err(e) => r == Err::<Processed, DecodeError>(e),
        },
{
    let data = match InstructionData::try_from_slice(instruction_data) {
        Ok(data) => data,
        Err(e) => {
            return Err(e);
        },
    };
    let greeting = data.greeting();
    let verdict = data.check_age();
    Ok(Processed { greeting, verdict })
}

} // verus!
