//! The byte encoding of the values that tokens are made of, as
//! `casper_types::bytesrepr` writes and reads them.

use vstd::prelude::*;
use vstd::bytes::{
    spec_u32_from_le_bytes, spec_u32_to_le_bytes, spec_u64_from_le_bytes, spec_u64_to_le_bytes,
};
use vstd::utf8::{decode_utf8, encode_utf8, valid_utf8};

verus! {

/// Why a value could not be written or read.
#[derive(Clone, Copy, Debug, PartialEq, Eq, Structural, Hash)]
pub enum EncodingError {
    /// The bytes end before the value does.
    EarlyEndOfStream,
    /// The bytes are not the encoding of any value.
    Formatting,
    /// Bytes are left over after the value.
    LeftOverBytes,
    /// The encoding would be longer than a buffer may be.
    OutOfMemory,
    /// The value has no encoding.
    NotRepresentable,
    /// The value is nested too deeply.
    ExceededRecursionDepth,
    /// A kind of error that this library does not know.
    Unrecognized,
}

#[verifier::external_type_specification]
#[verifier::external_body]
pub struct ExBytesreprError(casper_types::bytesrepr::Error);

/// Tells the variants of `bytesrepr::Error` apart.
#[verifier::external_body]
fn encoding_error(error: casper_types::bytesrepr::Error) -> EncodingError {
    match error {
        casper_types::bytesrepr::Error::EarlyEndOfStream => EncodingError::EarlyEndOfStream,
        casper_types::bytesrepr::Error::Formatting => EncodingError::Formatting,
        casper_types::bytesrepr::Error::LeftOverBytes => EncodingError::LeftOverBytes,
        casper_types::bytesrepr::Error::OutOfMemory => EncodingError::OutOfMemory,
        casper_types::bytesrepr::Error::NotRepresentable => EncodingError::NotRepresentable,
        casper_types::bytesrepr::Error::ExceededRecursionDepth => {
            EncodingError::ExceededRecursionDepth
        },
        _ => EncodingError::Unrecognized,
    }
}

/// The longest encoding for which a buffer is handed out.
pub open spec fn max_encoded_length() -> nat {
    u32::MAX as nat
}

/// The encoding of a string: the length of its UTF-8 bytes as four
/// little-endian bytes, then those bytes.
pub open spec fn string_bytes(chars: Seq<char>) -> Seq<u8> {
    spec_u32_to_le_bytes(encode_utf8(chars).len() as u32) + encode_utf8(chars)
}

/// What reading a `u64` from the front of `bytes` gives: the value and
/// the bytes after it.
pub open spec fn parse_u64(bytes: Seq<u8>) -> Result<(u64, Seq<u8>), EncodingError> {
    if bytes.len() < 8 {
        Err(EncodingError::EarlyEndOfStream)
    } else {
        Ok((spec_u64_from_le_bytes(bytes.subrange(0, 8)), bytes.subrange(8, bytes.len() as int)))
    }
}

/// What reading a string from the front of `bytes` gives: its characters
/// and the bytes after it.
pub open spec fn parse_string(bytes: Seq<u8>) -> Result<(Seq<char>, Seq<u8>), EncodingError> {
    if bytes.len() < 4 {
        Err(EncodingError::EarlyEndOfStream)
    } else {
        let size = spec_u32_from_le_bytes(bytes.subrange(0, 4)) as int;
        if bytes.len() - 4 < size {
            Err(EncodingError::EarlyEndOfStream)
        } else if !valid_utf8(bytes.subrange(4, 4 + size)) {
            Err(EncodingError::Formatting)
        } else {
            Ok(
                (
                    decode_utf8(bytes.subrange(4, 4 + size)),
                    bytes.subrange(4 + size, bytes.len() as int),
                ),
            )
        }
    }
}

/// Calls `<u64 as ToBytes>::to_bytes`. Trusted: it succeeds, with the
/// eight little-endian bytes of the value.
#[verifier::external_body]
pub(crate) fn u64_to_bytes(value: u64) -> (r: Result<Vec<u8>, EncodingError>)
    ensures
        r is Ok,
        r->Ok_0@ == spec_u64_to_le_bytes(value),
{
    match casper_types::bytesrepr::ToBytes::to_bytes(&value) {
        Ok(bytes) => Ok(bytes),
        Err(error) => Err(encoding_error(error)),
    }
}

/// Calls `<String as ToBytes>::to_bytes`. Trusted: a string whose UTF-8
/// bytes number no more than `u32::MAX` gives `string_bytes` of its
/// characters; a longer one is refused as `NotRepresentable`.
#[verifier::external_body]
pub(crate) fn string_to_bytes(value: &String) -> (r: Result<Vec<u8>, EncodingError>)
    ensures
        encode_utf8(value@).len() <= u32::MAX ==> r is Ok && r->Ok_0@ == string_bytes(value@),
        encode_utf8(value@).len() > u32::MAX ==> r is Err && r->Err_0
            == EncodingError::NotRepresentable,
{
    match casper_types::bytesrepr::ToBytes::to_bytes(value) {
        Ok(bytes) => Ok(bytes),
        Err(error) => Err(encoding_error(error)),
    }
}

/// Calls `<u64 as FromBytes>::from_bytes`. Trusted: what `parse_u64` says.
#[verifier::external_body]
pub(crate) fn u64_from_bytes(bytes: &[u8]) -> (r: Result<(u64, &[u8]), EncodingError>)
    ensures
        r matches Ok((value, rest)) ==> parse_u64(bytes@) is Ok && parse_u64(bytes@)->Ok_0 == (
            value,
            rest@,
        ),
        r matches Err(error) ==> parse_u64(bytes@) is Err && parse_u64(bytes@)->Err_0 == error,
{
    match <u64 as casper_types::bytesrepr::FromBytes>::from_bytes(bytes) {
        Ok((value, rest)) => Ok((value, rest)),
        Err(error) => Err(encoding_error(error)),
    }
}

/// Calls `<String as FromBytes>::from_bytes`. Trusted: what `parse_string`
/// says.
#[verifier::external_body]
pub(crate) fn string_from_bytes(bytes: &[u8]) -> (r: Result<(String, &[u8]), EncodingError>)
    ensures
        r matches Ok((value, rest)) ==> parse_string(bytes@) is Ok && parse_string(bytes@)->Ok_0
            == (value@, rest@),
        r matches Err(error) ==> parse_string(bytes@) is Err && parse_string(bytes@)->Err_0
            == error,
{
    match <String as casper_types::bytesrepr::FromBytes>::from_bytes(bytes) {
        Ok((value, rest)) => Ok((value, rest)),
        Err(error) => Err(encoding_error(error)),
    }
}

/// An empty buffer for an encoding of `serialized_length` bytes, or
/// `OutOfMemory` where that is more than `u32::MAX`.
pub fn allocate_buffer(serialized_length: usize) -> (r: Result<Vec<u8>, EncodingError>)
    ensures
        serialized_length <= max_encoded_length() ==> r is Ok && r->Ok_0@ == Seq::<u8>::empty(),
        serialized_length > max_encoded_length() ==> r == Err::<Vec<u8>, EncodingError>(
            EncodingError::OutOfMemory,
        ),
{
    if serialized_length > u32::MAX as usize {
        return Err(EncodingError::OutOfMemory);
    }
    Ok(Vec::with_capacity(serialized_length))
}

/// Reading back what was written gives the value and what followed it.
pub proof fn lemma_parse_u64_of_bytes(value: u64, tail: Seq<u8>)
    ensures
        parse_u64(spec_u64_to_le_bytes(value) + tail) == Ok::<(u64, Seq<u8>), EncodingError>(
            (value, tail),
        ),
{
    vstd::bytes::lemma_auto_spec_u64_to_from_le_bytes();
    let head = spec_u64_to_le_bytes(value);
    let bytes = head + tail;
    assert(bytes.subrange(0, 8) =~= head);
    assert(bytes.subrange(8, bytes.len() as int) =~= tail);
}

/// Reading back a string that was written gives its characters and what
/// followed it.
pub proof fn lemma_parse_string_of_bytes(chars: Seq<char>, tail: Seq<u8>)
    requires
        encode_utf8(chars).len() <= u32::MAX,
    ensures
        parse_string(string_bytes(chars) + tail) == Ok::<(Seq<char>, Seq<u8>), EncodingError>(
            (chars, tail),
        ),
{
    vstd::bytes::lemma_auto_spec_u32_to_from_le_bytes();
    let body = encode_utf8(chars);
    let size = body.len() as u32;
    let head = spec_u32_to_le_bytes(size);
    let bytes = string_bytes(chars) + tail;
    assert(bytes.subrange(0, 4) =~= head);
    assert(bytes.subrange(4, 4 + size) =~= body);
    assert(bytes.subrange(4 + size, bytes.len() as int) =~= tail);
    vstd::utf8::encode_utf8_valid_utf8(chars);
    vstd::utf8::encode_utf8_decode_utf8(chars);
}

} // verus!
