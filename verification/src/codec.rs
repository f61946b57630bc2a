//! Text to and from standard Base64, and bytes to text.
//!
//! The coding itself is the work of the `base64` crate, and turning bytes
//! into text that of the standard library. What they return is given names
//! here, and the contracts of this module say no more of a name than that
//! it depends on the input alone.

use base64::engine::general_purpose::STANDARD;
use base64::Engine;
use vstd::prelude::*;
use vstd::utf8::{encode_utf8, valid_utf8};

verus! {

/// What decoding a text as standard Base64, with padding, gives: the bytes,
/// or the description of what is wrong with the text.
pub uninterp spec fn standard_decoded(text: Seq<char>) -> Result<Seq<u8>, Seq<char>>;

/// The standard Base64 encoding, with padding, of a sequence of bytes.
pub uninterp spec fn standard_encoded(bytes: Seq<u8>) -> Seq<char>;

/// The description of what keeps a sequence of bytes from being UTF-8.
pub uninterp spec fn utf8_fault(bytes: Seq<u8>) -> Seq<char>;

/// The longest input that is encoded: the encoding of a longer one might
/// not fit into memory.
pub open spec fn spec_encode_limit() -> usize {
    (usize::MAX / 4) as usize
}

/// The longest input that is encoded.
#[verifier::when_used_as_spec(spec_encode_limit)]
pub fn encode_limit() -> (limit: usize)
    ensures
        limit == spec_encode_limit(),
{
    usize::MAX / 4
}

/// `Engine::decode` of the `base64` crate on its engine `STANDARD`: the
/// decoded bytes, or the text that the crate's error displays as. Claimed:
/// the outcome depends on the text alone.
#[verifier::external_body]
pub(crate) fn decode_standard(text: &str) -> (decoded: Result<Vec<u8>, String>)
    ensures
        match decoded {
            Ok(bytes) => standard_decoded(text@) == Ok::<Seq<u8>, Seq<char>>(bytes@),
            Err(fault) => standard_decoded(text@) == Err::<Seq<u8>, Seq<char>>(fault@),
        },
{
    match STANDARD.decode(text) {
        Ok(bytes) => Ok(bytes),
        Err(error) => Err(format!("{}", error)),
    }
}

/// `Engine::encode` of the `base64` crate on its engine `STANDARD`. Claimed:
/// the text depends on the bytes alone. Inputs whose encoding might pass the
/// largest allocation, on which the crate panics, are left out.
#[verifier::external_body]
pub(crate) fn encode_standard(bytes: &[u8]) -> (text: String)
    requires
        bytes@.len() <= encode_limit(),
    ensures
        text@ == standard_encoded(bytes@),
{
    STANDARD.encode(bytes)
}

/// `String::from_utf8` of the standard library: the text whose bytes these
/// are, where they are UTF-8, else the text that the error displays as.
/// Claimed: it succeeds exactly on UTF-8, the text has the given bytes, and
/// the description depends on the bytes alone.
#[verifier::external_body]
pub(crate) fn text_of(bytes: Vec<u8>) -> (text: Result<String, String>)
    ensures
        match text {
            Ok(plain) => valid_utf8(bytes@) && encode_utf8(plain@) == bytes@,
            Err(fault) => !valid_utf8(bytes@) && fault@ == utf8_fault(bytes@),
        },
{
    match String::from_utf8(bytes) {
        Ok(plain) => Ok(plain),
        Err(error) => Err(format!("{}", error)),
    }
}

} // verus!
