//! Trusted boundary to the `base64` crate: the standard alphabet with
//! mandatory, canonical padding, as share links use it.

use vstd::prelude::*;
use base64::Engine;

verus! {

/// The padded standard-alphabet Base64 text for a byte sequence. The
/// encoding is a function of the bytes alone; the wrappers below relate it
/// to the `base64` crate's engine.
pub uninterp spec fn base64_encoding(bytes: Seq<u8>) -> Seq<char>;

/// Relies on `base64::engine::general_purpose::STANDARD.encode`: emits the
/// padded standard-alphabet encoding of the input bytes.
#[verifier::external_body]
pub(crate) fn b64_encode(bytes: &Vec<u8>) -> (r: String)
    ensures
        r@ == base64_encoding(bytes@),
{
    base64::engine::general_purpose::STANDARD.encode(bytes)
}

/// Relies on `base64::engine::general_purpose::STANDARD.decode`: the engine
/// requires canonical padding and rejects set trailing bits, so it accepts
/// exactly the texts that `encode` produces, and inverts it; on failure the
/// error's rendering is returned.
#[verifier::external_body]
pub(crate) fn b64_decode(s: &str) -> (r: Result<Vec<u8>, String>)
    ensures
        r matches Ok(v) ==> s@ == base64_encoding(v@) && (forall|w: Seq<u8>|
            base64_encoding(w) == s@ ==> w == v@),
        (exists|w: Seq<u8>| s@ == base64_encoding(w)) ==> r is Ok,
{
    match base64::engine::general_purpose::STANDARD.decode(s) {
        Ok(v) => Ok(v),
        Err(e) => Err(e.to_string()),
    }
}

} // verus!
