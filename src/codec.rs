//! Unpadded base64url, as JWT segments and JWK fields are written.
use vstd::prelude::*;
use base64::Engine;

verus! {

/// What base64's URL-safe, unpadded engine decodes the text `s` to, or
/// `None` where it refuses it (a character outside the alphabet, a length
/// that leaves one character over, trailing bits that are not zero).
pub uninterp spec fn b64url_decoded(s: Seq<char>) -> Option<Seq<u8>>;

/// Relies on `base64::engine::general_purpose::URL_SAFE_NO_PAD.decode`:
/// its result depends on the text alone.
#[verifier::external_body]
pub(crate) fn b64url_decode(s: &str) -> (r: Result<Vec<u8>, base64::DecodeError>)
    ensures
        r is Ok <==> b64url_decoded(s@) is Some,
        r is Ok ==> b64url_decoded(s@) == Some(r->Ok_0@),
{
    base64::engine::general_purpose::URL_SAFE_NO_PAD.decode(s)
}

} // verus!
