//! The binary layout of the primitive values an instruction is made of, the
//! calls that read them from the front of a buffer, and the calls that append
//! them to one.
//!
//! A text is stored as its length in bytes, an unsigned 32-bit number with the
//! lowest byte first, followed by that many bytes of UTF-8. A byte is stored
//! as itself.

use borsh::{BorshDeserialize, BorshSerialize};
use vstd::arithmetic::div_mod::lemma_fundamental_div_mod_converse;
use vstd::prelude::*;
use vstd::utf8::{
    decode_utf8, decode_utf8_encode_utf8, encode_utf8, encode_utf8_decode_utf8,
    encode_utf8_valid_utf8, valid_utf8,
};

verus! {

/// Number of bytes that hold the length of a text.
pub const LEN_PREFIX: usize = 4;

/// The error that the primitive decoders report. Nothing is read from it.
#[verifier::external_type_specification]
#[verifier::external_body]
pub struct ExIoError(std::io::Error);

/// The number that the first four bytes of `bytes` stand for, lowest byte
/// first.
pub open spec fn le_u32(bytes: Seq<u8>) -> nat
    recommends
        bytes.len() >= LEN_PREFIX,
{
    (bytes[0] + 0x100 * bytes[1] + 0x1_0000 * bytes[2] + 0x100_0000 * bytes[3]) as nat
}

/// The bytes that the length prefix of `bytes` announces as the text's body.
pub open spec fn text_body(bytes: Seq<u8>) -> Seq<u8>
    recommends
        bytes.len() >= LEN_PREFIX + le_u32(bytes),
{
    bytes.subrange(LEN_PREFIX as int, LEN_PREFIX + le_u32(bytes))
}

/// Whether `bytes` starts with a complete text: a length prefix, as many
/// bytes as it announces, and those bytes valid UTF-8.
pub open spec fn starts_with_text(bytes: Seq<u8>) -> bool {
    &&& bytes.len() >= LEN_PREFIX
    &&& bytes.len() >= LEN_PREFIX + le_u32(bytes)
    &&& valid_utf8(text_body(bytes))
}

/// The text at the front of `bytes`.
pub open spec fn text_of(bytes: Seq<u8>) -> Seq<char>
    recommends
        starts_with_text(bytes),
{
    decode_utf8(text_body(bytes))
}

/// What follows the text at the front of `bytes`.
pub open spec fn after_text(bytes: Seq<u8>) -> Seq<u8>
    recommends
        starts_with_text(bytes),
{
    bytes.subrange(LEN_PREFIX + le_u32(bytes), bytes.len() as int)
}

/// The four bytes that stand for `n`, lowest byte first.
pub open spec fn le_bytes(n: nat) -> Seq<u8>
    recommends
        n <= u32::MAX,
{
    seq![
        (n % 0x100) as u8,
        (n / 0x100 % 0x100) as u8,
        (n / 0x1_0000 % 0x100) as u8,
        (n / 0x100_0000 % 0x100) as u8,
    ]
}

/// Whether `text` can be stored: its length in bytes fits the prefix.
pub open spec fn storable(text: Seq<char>) -> bool {
    encode_utf8(text).len() <= u32::MAX
}

/// The binary form of `text`: its length in bytes, then its UTF-8 bytes.
pub open spec fn text_bytes(text: Seq<char>) -> Seq<u8>
    recommends
        storable(text),
{
    le_bytes(encode_utf8(text).len()) + encode_utf8(text)
}

/// A length prefix stands for the number it was written from.
pub proof fn lemma_le_u32_of_le_bytes(n: nat)
    requires
        n <= u32::MAX,
    ensures
        le_bytes(n).len() == LEN_PREFIX,
        le_u32(le_bytes(n)) == n,
{
    let n1 = n / 0x100;
    let n2 = n / 0x1_0000;
    let n3 = n / 0x100_0000;
    assert(n == 0x100 * n1 + n % 0x100);
    assert(n1 == 0x100 * n2 + n1 % 0x100);
    assert(n2 == 0x100 * n3 + n2 % 0x100);
    assert(n3 < 0x100);
}

/// Four bytes are the length prefix of the number they stand for.
pub proof fn lemma_le_bytes_of_le_u32(bytes: Seq<u8>)
    requires
        bytes.len() >= LEN_PREFIX,
    ensures
        le_u32(bytes) <= u32::MAX,
        le_bytes(le_u32(bytes)) == bytes.subrange(0, LEN_PREFIX as int),
{
    let n = le_u32(bytes) as int;
    let n1 = bytes[1] + 0x100 * bytes[2] + 0x1_0000 * bytes[3];
    let n2 = bytes[2] + 0x100 * bytes[3];
    let n3 = bytes[3] as int;
    lemma_fundamental_div_mod_converse(n, 0x100, n1, bytes[0] as int);
    lemma_fundamental_div_mod_converse(n, 0x1_0000, n2, bytes[0] + 0x100 * bytes[1]);
    lemma_fundamental_div_mod_converse(
        n,
        0x100_0000,
        n3,
        bytes[0] + 0x100 * bytes[1] + 0x1_0000 * bytes[2],
    );
    lemma_fundamental_div_mod_converse(n1, 0x100, n2, bytes[1] as int);
    lemma_fundamental_div_mod_converse(n2, 0x100, n3, bytes[2] as int);
    lemma_fundamental_div_mod_converse(n3, 0x100, 0, bytes[3] as int);
}

/// A stored text, whatever follows it, is read back as the same text, and
/// what follows it is left over.
pub proof fn lemma_text_read_back(text: Seq<char>, tail: Seq<u8>)
    requires
        storable(text),
    ensures
        starts_with_text(text_bytes(text) + tail),
        text_of(text_bytes(text) + tail) == text,
        after_text(text_bytes(text) + tail) == tail,
{
    let body = encode_utf8(text);
    let bytes = text_bytes(text) + tail;
    lemma_le_u32_of_le_bytes(body.len());
    assert(le_u32(bytes) == le_u32(le_bytes(body.len())));
    assert(text_body(bytes) == body);
    encode_utf8_valid_utf8(text);
    encode_utf8_decode_utf8(text);
    assert(after_text(bytes) == tail);
}

/// A buffer that starts with a text starts with the binary form of that
/// text: no text has two binary forms.
pub proof fn lemma_text_stored_once(bytes: Seq<u8>)
    requires
        starts_with_text(bytes),
    ensures
        storable(text_of(bytes)),
        bytes == text_bytes(text_of(bytes)) + after_text(bytes),
{
    let body = text_body(bytes);
    decode_utf8_encode_utf8(body);
    lemma_le_bytes_of_le_u32(bytes);
    assert(bytes == bytes.subrange(0, LEN_PREFIX as int) + body + after_text(bytes));
}

/// Reads a text from the front of `buf` with borsh's
/// `<String as BorshDeserialize>::deserialize` and returns it with the bytes
/// that follow it.
///
/// Trusted: the call succeeds exactly when `buf` starts with a four-byte
/// little-endian length, at least that many further bytes, and those bytes are
/// valid UTF-8; the string then holds exactly those bytes, and the buffer is
/// left at the first byte after them.
#[verifier::external_body]
pub(crate) fn read_text<'a>(buf: &'a [u8]) -> (r: Result<(String, &'a [u8]), std::io::Error>)
    ensures
        r is Ok <==> starts_with_text(buf@),
        r matches Ok((text, rest)) ==> text@ == text_of(buf@) && rest@ == after_text(buf@),
{
    let mut rest = buf;
    let text = <String as BorshDeserialize>::deserialize(&mut rest)?;
    Ok((text, rest))
}

/// Reads one byte from the front of `buf` with borsh's
/// `<u8 as BorshDeserialize>::deserialize` and returns it with the bytes that
/// follow it.
///
/// Trusted: the call succeeds exactly when `buf` is not empty; it then
/// returns the first byte and leaves the buffer at the second.
#[verifier::external_body]
pub(crate) fn read_byte<'a>(buf: &'a [u8]) -> (r: Result<(u8, &'a [u8]), std::io::Error>)
    ensures
        r is Ok <==> buf@.len() >= 1,
        r matches Ok((byte, rest)) ==> byte == buf@[0] && rest@ == buf@.subrange(
            1,
            buf@.len() as int,
        ),
{
    let mut rest = buf;
    let byte = <u8 as BorshDeserialize>::deserialize(&mut rest)?;
    Ok((byte, rest))
}

/// Appends the binary form of `text` to `out` with borsh's
/// `<str as BorshSerialize>::serialize`.
///
/// Trusted: the call fails, and writes nothing, exactly when the text's
/// length in bytes does not fit in 32 bits; otherwise it appends the length,
/// lowest byte first, and then the text's UTF-8 bytes.
#[verifier::external_body]
pub(crate) fn write_text(text: &str, out: &mut Vec<u8>) -> (r: Result<(), std::io::Error>)
    ensures
        r is Ok <==> storable(text@),
        r is Ok ==> final(out)@ == old(out)@ + text_bytes(text@),
        r is Err ==> final(out)@ == old(out)@,
{
    <str as BorshSerialize>::serialize(text, out)
}

/// Appends `byte` to `out` with borsh's `<u8 as BorshSerialize>::serialize`.
///
/// Trusted: writing to a vector cannot fail, and appends that one byte.
#[verifier::external_body]
pub(crate) fn write_byte(byte: u8, out: &mut Vec<u8>) -> (r: Result<(), std::io::Error>)
    ensures
        r is Ok,
        final(out)@ == old(out)@.push(byte),
{
    <u8 as BorshSerialize>::serialize(&byte, out)
}

} // verus!
