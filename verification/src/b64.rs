//! Trusted boundary to the base64 crate's URL-safe, unpadded engine, which
//! renders serialized credentials as text that survives a URL or an
//! `Authorization` header.

use vstd::prelude::*;

verus! {

/// The URL-safe unpadded base64 rendering of a byte sequence. The rendering
/// depends on the bytes alone, so it can stand as a name in contracts; what
/// the characters are on given bytes is never stated here.
pub uninterp spec fn b64_of(bytes: Seq<u8>) -> Seq<char>;

/// Relies on base64's `URL_SAFE_NO_PAD` engine: `encode` maps each byte
/// sequence to its unique unpadded URL-safe rendering, and never panics.
#[verifier::external_body]
pub fn b64_encode(bytes: &Vec<u8>) -> (r: String)
    ensures
        r@ == b64_of(bytes@),
{
    base64::Engine::encode(&base64::engine::general_purpose::URL_SAFE_NO_PAD, bytes)
}

/// The base64 crate's decode error, opaque to the library; any occurrence is
/// folded into the library's own malformed-input error.
#[verifier::external_type_specification]
#[verifier::external_body]
pub struct ExDecodeError(base64::DecodeError);

/// Relies on base64's `URL_SAFE_NO_PAD` engine: with padding refused and
/// non-zero trailing bits refused (the crate's defaults for this engine),
/// `decode` accepts exactly the strings that `encode` produces and returns
/// the unique byte sequence each one renders.
#[verifier::external_body]
pub fn b64_decode(s: &str) -> (r: Result<Vec<u8>, base64::DecodeError>)
    ensures
        r matches Ok(v) ==> s@ == b64_of(v@),
        r matches Ok(v) ==> forall|b: Seq<u8>| b64_of(b) == s@ ==> b == v@,
        r is Err ==> forall|b: Seq<u8>| b64_of(b) != s@,
{
    base64::Engine::decode(&base64::engine::general_purpose::URL_SAFE_NO_PAD, s)
}

} // verus!
