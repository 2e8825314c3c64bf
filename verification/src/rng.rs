//! Trusted boundary to the process's sources of randomness: nonces for
//! credentials and correlation keys for pending verification attempts.

use vstd::prelude::*;

verus! {

/// The getrandom crate's error, opaque to the library; the caller folds any
/// occurrence into its own issuance error.
#[verifier::external_type_specification]
#[verifier::external_body]
pub struct ExGetrandomError(getrandom::Error);

/// Relies on getrandom::getrandom: on success the whole buffer has been
/// filled from the operating system's entropy source. The values are random,
/// so nothing is promised of them beyond the length; a failing source is
/// surfaced as the error, never a panic.
#[verifier::external_body]
pub(crate) fn random_bytes_32() -> (r: Result<Vec<u8>, getrandom::Error>)
    ensures
        r matches Ok(v) ==> v@.len() == 32,
{
    let mut buf = [0u8; 32];
    getrandom::getrandom(&mut buf)?;
    Ok(buf.to_vec())
}

} // verus!
