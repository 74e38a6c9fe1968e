//! Base64, through the `base64` crate's standard engine.
//!
//! What the encoding looks like is not restated here: the results are only
//! named, and everything the library proves goes through these names.

use base64::Engine;
use vstd::prelude::*;

verus! {

/// The base64 encoding (standard alphabet, padded) of the UTF-8 bytes of `s`.
pub uninterp spec fn base64_encoding_of(s: Seq<char>) -> Seq<char>;

/// The bytes that the standard padded base64 decoding of `s` yields, or
/// `None` where `s` is not valid base64 under that engine.
pub uninterp spec fn base64_decoding_of(s: Seq<char>) -> Option<Seq<u8>>;

/// Relies on `base64::engine::Engine::encode` with the crate's
/// `general_purpose::STANDARD` engine: the result is a function of the input
/// bytes alone.
#[verifier::external_body]
pub fn base64_encode(s: &str) -> (r: String)
    ensures
        r@ == base64_encoding_of(s@),
{
    base64::engine::general_purpose::STANDARD.encode(s.as_bytes())
}

/// Relies on `base64::engine::Engine::decode` with the crate's
/// `general_purpose::STANDARD` engine: the result is a function of the input
/// alone, and an empty input decodes to no bytes.
#[verifier::external_body]
pub fn base64_decode(s: &str) -> (r: Option<Vec<u8>>)
    ensures
        match r {
            Some(bytes) => base64_decoding_of(s@) == Some(bytes@) && (s@.len() == 0 ==> bytes@.len()
                == 0),
            None => base64_decoding_of(s@) is None && s@.len() != 0,
        },
{
    base64::engine::general_purpose::STANDARD.decode(s.as_bytes()).ok()
}

} // verus!
