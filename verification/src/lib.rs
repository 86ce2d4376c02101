//! Admission check for a bar: an instruction names a customer and gives
//! their age; the customer is greeted and then admitted or turned away.

pub mod error;
pub mod instruction;
pub mod processor;
pub mod wire;

pub use crate::error::Errors;
pub use crate::instruction::{DecodeError, InstructionData};
pub use crate::processor::{process_instruction, Processed};
