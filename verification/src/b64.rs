//! Base64 text for session descriptions: the negotiated offer arrives as
//! base64 text and the local answer leaves the same way.

use vstd::prelude::*;

verus! {

use vstd::string::StringSliceAdditionalSpecFns;
use vstd::utf8::encode_utf8;
use vstd::utf8::valid_utf8;

/// The standard, padded base64 encoding of a byte sequence, as
/// `base64::encode` computes it.
pub uninterp spec fn base64_encoding(bytes: Seq<u8>) -> Seq<char>;

/// What `base64::decode` yields for a character sequence: the decoded bytes
/// where the input is well-formed standard base64, and nothing otherwise.
pub uninterp spec fn base64_decoding(text: Seq<u8>) -> Option<Seq<u8>>;

/// A decode failure.
#[derive(Clone, Copy, PartialEq, Eq, Structural, Debug)]
pub enum DecodeError {
    /// The input is not well-formed base64.
    InvalidBase64,
    /// The decoded bytes are not valid UTF-8 text.
    InvalidUtf8,
}

/// Relies on `base64::encode`: the standard, padded encoding of the input
/// bytes, a pure function of them.
#[verifier::external_body]
fn b64_encode(bytes: &[u8]) -> (r: String)
    ensures
        r@ == base64_encoding(bytes@),
{
    base64::encode(bytes)
}

/// Relies on `base64::decode`: yields the decoded bytes exactly when the
/// input is well-formed standard base64, a pure function of the input.
#[verifier::external_body]
fn b64_decode(text: &[u8]) -> (r: Option<Vec<u8>>)
    ensures
        match r {
            Some(bytes) => base64_decoding(text@) == Some(bytes@),
            None => base64_decoding(text@) is None,
        },
{
    match base64::decode(text) {
        Ok(bytes) => Some(bytes),
        Err(_) => None,
    }
}

/// Relies on `String::from_utf8`: succeeds exactly when the bytes are valid
/// UTF-8, and the returned string holds exactly those bytes.
#[verifier::external_body]
fn string_from_utf8(bytes: Vec<u8>) -> (r: Option<String>)
    ensures
        match r {
            Some(s) => valid_utf8(bytes@) && encode_utf8(s@) == bytes@,
            None => !valid_utf8(bytes@),
        },
{
    match String::from_utf8(bytes) {
        Ok(s) => Some(s),
        Err(_) => None,
    }
}

/// Encodes text as standard, padded base64.
pub fn encode(b: &str) -> (r: String)
    ensures
        r@ == base64_encoding(b.spec_bytes()),
{
    b64_encode(b.as_bytes())
}

/// Decodes standard base64 back into text: fails on malformed base64, and
/// on decoded bytes that are not UTF-8.
pub fn decode(s: &str) -> (r: Result<String, DecodeError>)
    ensures
        match r {
            Ok(out) => base64_decoding(s.spec_bytes()) == Some(encode_utf8(out@))
                && valid_utf8(encode_utf8(out@)),
            Err(DecodeError::InvalidBase64) => base64_decoding(s.spec_bytes()) is None,
            Err(DecodeError::InvalidUtf8) => match base64_decoding(s.spec_bytes()) {
                Some(bytes) => !valid_utf8(bytes),
                None => false,
            },
        },
{
    match b64_decode(s.as_bytes()) {
        Some(bytes) => match string_from_utf8(bytes) {
            Some(out) => Ok(out),
            None => Err(DecodeError::InvalidUtf8),
        },
        None => Err(DecodeError::InvalidBase64),
    }
}

} // verus!
