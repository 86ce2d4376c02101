//! The instruction record and its binary form.

use crate::wire::{
    after_text, lemma_text_read_back, lemma_text_stored_once, read_byte, read_text,
    starts_with_text, storable, text_bytes, text_of, write_byte, write_text,
};
use vstd::prelude::*;

verus! {

/// What an instruction says, as mathematics: the customer's name and age.
pub ghost struct Record {
    pub name: Seq<char>,
    pub age: u8,
}

/// The payload of one instruction.
#[derive(Debug)]
pub struct InstructionData {
    name: String,
    age: u8,
}

/// Why a buffer is not the binary form of an instruction.
#[derive(Clone, Copy, Debug, PartialEq, Eq, Structural)]
pub enum DecodeError {
    /// The buffer does not start with a complete, valid text.
    InvalidName,
    /// The buffer ends after the name.
    MissingAge,
    /// Bytes follow the age.
    TrailingBytes,
}

impl DecodeError {
    /// The text that describes this error.
    pub open spec fn spec_message(self) -> Seq<char> {
        match self {
            DecodeError::InvalidName => "The name is cut short or is not valid UTF-8"@,
            DecodeError::MissingAge => "The age is missing"@,
            DecodeError::TrailingBytes => "Bytes follow the age"@,
        }
    }

    /// The text that describes this error.
    pub fn message(self) -> (text: String)
        ensures
            text@ == self.spec_message(),
    {
        match self {
            DecodeError::InvalidName => String::from_str(
                "The name is cut short or is not valid UTF-8",
            ),
            DecodeError::MissingAge => String::from_str("The age is missing"),
            DecodeError::TrailingBytes => String::from_str("Bytes follow the age"),
        }
    }
}

/// The record that `bytes` encodes, or the reason why it encodes none: a
/// name, then one byte of age, then nothing.
pub open spec fn decode(bytes: Seq<u8>) -> Result<Record, DecodeError> {
    if !starts_with_text(bytes) {
        Err(DecodeError::InvalidName)
    } else if after_text(bytes).len() == 0 {
        Err(DecodeError::MissingAge)
    } else if after_text(bytes).len() > 1 {
        Err(DecodeError::TrailingBytes)
    } else {
        Ok(Record { name: text_of(bytes), age: after_text(bytes)[0] })
    }
}

/// The binary form of `record`: the name, then the age.
pub open spec fn encode(record: Record) -> Seq<u8>
    recommends
        storable(record.name),
{
    text_bytes(record.name).push(record.age)
}

/// Decoding the binary form of a record gives the record back.
pub proof fn lemma_decode_encode(record: Record)
    requires
        storable(record.name),
    ensures
        decode(encode(record)) == Ok::<Record, DecodeError>(record),
{
    let tail = seq![record.age];
    assert(encode(record) == text_bytes(record.name) + tail);
    lemma_text_read_back(record.name, tail);
}

/// A buffer that decodes to a record is the binary form of that record: no
/// two buffers hold the same instruction.
pub proof fn lemma_encode_decode(bytes: Seq<u8>)
    requires
        decode(bytes) is Ok,
    ensures
        storable(decode(bytes)->Ok_0.name),
        encode(decode(bytes)->Ok_0) == bytes,
{
    lemma_text_stored_once(bytes);
    assert(after_text(bytes) == seq![after_text(bytes)[0]]);
}

impl View for InstructionData {
    type V = Record;

    closed spec fn view(&self) -> Record {
        Record { name: self.name@, age: self.age }
    }
}

impl InstructionData {
    /// An instruction for the customer `name`, who is `age` years old.
    pub fn new(name: String, age: u8) -> (data: InstructionData)
        ensures
            data@ == (Record { name: name@, age }),
    {
        InstructionData { name, age }
    }

    /// Decodes an instruction from its binary form. The whole of `v` must be
    /// used up.
    pub fn try_from_slice(v: &[u8]) -> (r: Result<InstructionData, DecodeError>)
        ensures
            match r {
                Ok(data) => decode(v@) == Ok::<Record, DecodeError>(data@) && encode(data@) == v@,
                Err(e) => decode(v@) == Err::<Record, DecodeError>(e),
            },
    {
        proof {
            if decode(v@) is Ok {
                lemma_encode_decode(v@);
            }
        }
        let (name, rest) = match read_text(v) {
            Ok(pair) => pair,
            Err(_) => {
                return Err(DecodeError::InvalidName);
            },
        };
        let (age, rest) = match read_byte(rest) {
            Ok(pair) => pair,
            Err(_) => {
                return Err(DecodeError::MissingAge);
            },
        };
        if rest.len() != 0 {
            return Err(DecodeError::TrailingBytes);
        }
        Ok(InstructionData { name, age })
    }

    /// The binary form of this instruction, unless the name is too long to
    /// be stored.
    pub fn to_vec(&self) -> (r: Option<Vec<u8>>)
        ensures
            r is Some <==> storable(self@.name),
            r matches Some(bytes) ==> bytes@ == encode(self@) && decode(bytes@) == Ok::<
                Record,
                DecodeError,
            >(self@),
    {
        proof {
            if storable(self@.name) {
                lemma_decode_encode(self@);
            }
        }
        let mut bytes: Vec<u8> = Vec::new();
        if write_text(self.name.as_str(), &mut bytes).is_err() {
            return None;
        }
        if write_byte(self.age, &mut bytes).is_err() {
            return None;
        }
        Some(bytes)
    }

    /// The customer's name.
    pub fn name(&self) -> (name: &str)
        ensures
            name@ == self@.name,
    {
        self.name.as_str()
    }

    /// The customer's age in years.
    pub fn age(&self) -> (age: u8)
        ensures
            age == self@.age,
    {
        self.age
    }
}

} // verus!
