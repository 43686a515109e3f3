//! The pieces of the binary encoding that messages are made of, as bincode writes and reads
//! them: numbers in little-endian order, strings and byte strings behind a 64-bit length.
use vstd::prelude::*;

verus! {

/// The four bytes of a 32-bit number, lowest first.
#[verifier::opaque]
pub open spec fn u32_bytes(value: u32) -> Seq<u8> {
    seq![
        (value % 256) as u8,
        (value / 256 % 256) as u8,
        (value / 65536 % 256) as u8,
        (value / 16777216) as u8,
    ]
}

/// The 32-bit number whose bytes, lowest first, `input` starts with.
#[verifier::opaque]
pub open spec fn u32_value(input: Seq<u8>) -> u32
    recommends
        input.len() >= 4,
{
    (input[0] + 256 * input[1] + 65536 * input[2] + 16777216 * input[3]) as u32
}

/// The eight bytes of a 64-bit number, lowest first.
#[verifier::opaque]
pub open spec fn u64_bytes(value: u64) -> Seq<u8> {
    u32_bytes((value % 4294967296) as u32) + u32_bytes((value / 4294967296) as u32)
}

/// The 64-bit number whose bytes, lowest first, `input` starts with.
#[verifier::opaque]
pub open spec fn u64_value(input: Seq<u8>) -> u64
    recommends
        input.len() >= 8,
{
    (u32_value(input) + 4294967296 * u32_value(input.skip(4))) as u64
}

/// A 32-bit number takes four bytes.
pub broadcast proof fn u32_takes_four_bytes(value: u32)
    ensures
        #[trigger] u32_bytes(value).len() == 4,
{
    reveal(u32_bytes);
}

/// A 64-bit number takes eight bytes.
pub broadcast proof fn u64_takes_eight_bytes(value: u64)
    ensures
        #[trigger] u64_bytes(value).len() == 8,
{
    reveal(u32_bytes);
    reveal(u64_bytes);
}

/// A byte string behind its length.
pub open spec fn blob_bytes(blob: Seq<u8>) -> Seq<u8> {
    u64_bytes(blob.len() as u64) + blob
}

/// A string, in UTF-8, behind its length in bytes.
pub open spec fn text_bytes(text: Seq<char>) -> Seq<u8> {
    blob_bytes(vstd::utf8::encode_utf8(text))
}

/// The byte string that `input` starts with, if it holds as many bytes as the length in front
/// of it says.
pub open spec fn blob_at(input: Seq<u8>) -> Option<Seq<u8>> {
    if input.len() >= 8 && input.len() - 8 >= u64_value(input) {
        Some(input.subrange(8, 8 + u64_value(input)))
    } else {
        None
    }
}

/// The string that `input` starts with: a byte string that is valid UTF-8.
pub open spec fn text_at(input: Seq<u8>) -> Option<Seq<char>> {
    match blob_at(input) {
        Some(blob) if vstd::utf8::valid_utf8(blob) => Some(vstd::utf8::decode_utf8(blob)),
        _ => None,
    }
}

/// The `count` strings that `input` starts with.
pub open spec fn run_of_texts_at(count: nat, input: Seq<u8>) -> Option<Seq<Seq<char>>>
    decreases count,
{
    if count == 0 {
        Some(Seq::empty())
    } else {
        match text_at(input) {
            Some(text) => match run_of_texts_at(
                (count - 1) as nat,
                input.skip(text_bytes(text).len() as int),
            ) {
                Some(texts) => Some(seq![text] + texts),
                None => None,
            },
            None => None,
        }
    }
}

/// The list of strings that `input` starts with: as many strings as the number in front of
/// them says.
pub open spec fn texts_at(input: Seq<u8>) -> Option<Seq<Seq<char>>> {
    if input.len() >= 8 {
        run_of_texts_at(u64_value(input) as nat, input.skip(8))
    } else {
        None
    }
}

/// What bincode reports where `input` is too short for a byte.
pub uninterp spec fn bincode_u8_error(input: Seq<u8>) -> Seq<char>;

/// What bincode reports where `input` is too short for a 32-bit number.
pub uninterp spec fn bincode_u32_error(input: Seq<u8>) -> Seq<char>;

/// What bincode reports where `input` is too short for a 64-bit number.
pub uninterp spec fn bincode_u64_error(input: Seq<u8>) -> Seq<char>;

/// What bincode reports where `input` does not start with a byte string, on a machine with
/// addresses of `usize_bits` bits.
pub uninterp spec fn bincode_blob_error(input: Seq<u8>, usize_bits: nat) -> Seq<char>;

/// What bincode reports where `input` does not start with a string, on a machine with addresses
/// of `usize_bits` bits.
pub uninterp spec fn bincode_text_error(input: Seq<u8>, usize_bits: nat) -> Seq<char>;

/// What bincode reports where `input` does not start with a list of strings, on a machine with
/// addresses of `usize_bits` bits.
pub uninterp spec fn bincode_texts_error(input: Seq<u8>, usize_bits: nat) -> Seq<char>;

/// The decimal digits of a number, highest first.
pub open spec fn decimal(value: nat) -> Seq<char>
    decreases value,
{
    let last = (48 + value % 10) as char;
    if value < 10 {
        seq![last]
    } else {
        decimal(value / 10).push(last)
    }
}

/// What bincode reports where it read the number `value` in place of what `expected` describes.
pub open spec fn bincode_invalid_value(value: u64, expected: Seq<char>) -> Seq<char> {
    "invalid value: integer `"@ + decimal(value as nat) + "`, expected "@ + expected
}

/// Calls `bincode::serialize` on a `u32`.
///
/// Claimed: it succeeds, with the number's bytes.
#[verifier::external_body]
pub(crate) fn bincode_encode_u32(value: u32) -> (res: Result<Vec<u8>, String>)
    ensures
        res is Ok,
        res matches Ok(bytes) ==> bytes@ == u32_bytes(value),
{
    bincode::serialize(&value).map_err(|error| error.to_string())
}

/// Calls `bincode::serialize` on a `u64`.
///
/// Claimed: it succeeds, with the number's bytes.
#[verifier::external_body]
pub(crate) fn bincode_encode_u64(value: u64) -> (res: Result<Vec<u8>, String>)
    ensures
        res is Ok,
        res matches Ok(bytes) ==> bytes@ == u64_bytes(value),
{
    bincode::serialize(&value).map_err(|error| error.to_string())
}

/// Calls `bincode::serialize` on a `serde_bytes::Bytes`.
///
/// Claimed: it succeeds, with the bytes behind their length.
#[verifier::external_body]
pub(crate) fn bincode_encode_blob(blob: &[u8]) -> (res: Result<Vec<u8>, String>)
    ensures
        res is Ok,
        res matches Ok(bytes) ==> bytes@ == blob_bytes(blob@),
{
    bincode::serialize(serde_bytes::Bytes::new(blob)).map_err(|error| error.to_string())
}

/// Calls `bincode::serialize` on a `str`.
///
/// Claimed: it succeeds, with the string's UTF-8 bytes behind their length.
#[verifier::external_body]
pub(crate) fn bincode_encode_text(text: &str) -> (res: Result<Vec<u8>, String>)
    ensures
        res is Ok,
        res matches Ok(bytes) ==> bytes@ == text_bytes(text@),
{
    bincode::serialize(text).map_err(|error| error.to_string())
}

/// Calls `bincode::deserialize` for a `u8`.
///
/// Claimed: it yields the first byte, and fails exactly where there is none, with a message
/// that the input determines.
#[verifier::external_body]
pub(crate) fn bincode_decode_u8(input: &[u8]) -> (res: Result<u8, String>)
    ensures
        match res {
            Ok(value) => input@.len() >= 1 && value == input@[0],
            Err(message) => input@.len() < 1 && message@ == bincode_u8_error(input@),
        },
{
    bincode::deserialize(input).map_err(|error| error.to_string())
}

/// Calls `bincode::deserialize` for a `u32`.
///
/// Claimed: it yields the number that the first four bytes hold, and fails exactly where there
/// are fewer, with a message that the input determines.
#[verifier::external_body]
pub(crate) fn bincode_decode_u32(input: &[u8]) -> (res: Result<u32, String>)
    ensures
        match res {
            Ok(value) => input@.len() >= 4 && value == u32_value(input@),
            Err(message) => input@.len() < 4 && message@ == bincode_u32_error(input@),
        },
{
    bincode::deserialize(input).map_err(|error| error.to_string())
}

/// Calls `bincode::deserialize` for a `u64`.
///
/// Claimed: it yields the number that the first eight bytes hold, and fails exactly where there
/// are fewer, with a message that the input determines.
#[verifier::external_body]
pub(crate) fn bincode_decode_u64(input: &[u8]) -> (res: Result<u64, String>)
    ensures
        match res {
            Ok(value) => input@.len() >= 8 && value == u64_value(input@),
            Err(message) => input@.len() < 8 && message@ == bincode_u64_error(input@),
        },
{
    bincode::deserialize(input).map_err(|error| error.to_string())
}

/// Calls `bincode::deserialize` for a `serde_bytes::ByteBuf`.
///
/// Claimed: it yields the byte string that the input starts with, and fails exactly where there
/// is none, with a message that the input and the width of an address determine.
#[verifier::external_body]
pub(crate) fn bincode_decode_blob(input: &[u8]) -> (res: Result<Vec<u8>, String>)
    ensures
        match res {
            Ok(blob) => blob_at(input@) == Some(blob@),
            Err(message) => {
                &&& blob_at(input@) is None
                &&& message@ == bincode_blob_error(input@, usize::BITS as nat)
            },
        },
{
    match bincode::deserialize::<serde_bytes::ByteBuf>(input) {
        Ok(blob) => Ok(blob.into_vec()),
        Err(error) => Err(error.to_string()),
    }
}

/// Calls `bincode::deserialize` for a `String`.
///
/// Claimed: it yields the string that the input starts with, and fails exactly where there is
/// none, with a message that the input and the width of an address determine.
#[verifier::external_body]
pub(crate) fn bincode_decode_text(input: &[u8]) -> (res: Result<String, String>)
    ensures
        match res {
            Ok(text) => text_at(input@) == Some(text@),
            Err(message) => {
                &&& text_at(input@) is None
                &&& message@ == bincode_text_error(input@, usize::BITS as nat)
            },
        },
{
    bincode::deserialize(input).map_err(|error| error.to_string())
}

/// Calls `bincode::deserialize` for a `Vec<String>`.
///
/// Claimed: it yields the list of strings that the input starts with, and fails exactly where
/// there is none, with a message that the input and the width of an address determine.
#[verifier::external_body]
pub(crate) fn bincode_decode_texts(input: &[u8]) -> (res: Result<Vec<String>, String>)
    ensures
        match res {
            Ok(texts) => texts_at(input@) == Some(texts.deep_view()),
            Err(message) => {
                &&& texts_at(input@) is None
                &&& message@ == bincode_texts_error(input@, usize::BITS as nat)
            },
        },
{
    bincode::deserialize(input).map_err(|error| error.to_string())
}

/// Calls `serde::de::Error::invalid_value` for a `bincode::Error`.
///
/// Claimed: the message gives the number, in decimal digits between backquotes, and what was
/// expected.
#[verifier::external_body]
pub(crate) fn bincode_invalid_value_error(value: u64, expected: &str) -> (res: String)
    ensures
        res@ == bincode_invalid_value(value, expected@),
{
    let found = serde::de::Unexpected::Unsigned(value);
    let error: bincode::Error = serde::de::Error::invalid_value(found, &expected);
    error.to_string()
}

} // verus!
