//! Checking a token's claims and its signature.
use vstd::prelude::*;
use vstd::arithmetic::power2::pow2;
use rsa::signature::Verifier;
use crate::certs::Cert;
use crate::codec::{b64url_decode, b64url_decoded};
use crate::views;
use crate::error::{
    GoogleIssuerNotMatchError, HashAlgorithmUnimplementedError,
    IDTokenClientIDNotFoundError, IDTokenExpiredError, TokenError,
};
use crate::jwt_parser::{JwtHeader, JwtParser, EXPECTED_SEGMENTS_COUNT};
use crate::output::GooglePayload;
use crate::{is_google_issuer, str_eq, GOOGLE_ISS_HOST, GOOGLE_ISS_URL};
use vstd::string::StringSliceAdditionalSpecFns;

verus! {

/// The value of the big-endian unsigned integer `s`.
pub open spec fn be_value(s: Seq<u8>) -> nat
    decreases s.len(),
{
    if s.len() == 0 {
        0
    } else {
        be_value(s.drop_last()) * 256 + s.last() as nat
    }
}

/// The modulus `n` and exponent `e` make an RSA public key that rsa accepts:
/// a modulus of at most 4096 bits, odd and above the exponent, and an odd
/// exponent from 2 to 2^33 - 1.
pub open spec fn rsa_key_accepted(n: Seq<u8>, e: Seq<u8>) -> bool {
    let nv = be_value(n);
    let ev = be_value(e);
    &&& nv < pow2(4096)
    &&& ev < nv
    &&& nv % 2 == 1
    &&& ev % 2 == 1
    &&& 2 <= ev <= pow2(33) - 1
}

/// Relies on `rsa::RsaPublicKey::new`, whose checks on the modulus and the
/// exponent `rsa_key_accepted` states; the key itself is not kept.
#[verifier::external_body]
fn check_rsa_public_key(n: &[u8], e: &[u8]) -> (r: Result<(), rsa::errors::Error>)
    ensures
        r is Ok <==> rsa_key_accepted(n@, e@),
{
    rsa::RsaPublicKey::new(rsa::BigUint::from_bytes_be(n), rsa::BigUint::from_bytes_be(e)).map(
        |_| (),
    )
}

/// Whether rsa's PKCS#1 v1.5 verifier with SHA-256 accepts `sig` as a
/// signature of `msg` under the public key with modulus `n` and exponent `e`.
pub uninterp spec fn rs256_verifies(n: Seq<u8>, e: Seq<u8>, msg: Seq<u8>, sig: Seq<u8>) -> bool;

/// Relies on `rsa::pkcs1v15::VerifyingKey::<Sha256>::verify`, on the key that
/// `rsa::RsaPublicKey::new` builds from `n` and `e`: the outcome depends on
/// these bytes alone. The verifier hashes `msg` itself.
#[verifier::external_body]
fn verify_pkcs1v15_sha256(n: &[u8], e: &[u8], msg: &[u8], sig: &[u8]) -> (r: Result<
    (),
    rsa::signature::Error,
>)
    requires
        rsa_key_accepted(n@, e@),
    ensures
        r is Ok <==> rs256_verifies(n@, e@, msg@, sig@),
{
    let key = rsa::RsaPublicKey::new(
        rsa::BigUint::from_bytes_be(n),
        rsa::BigUint::from_bytes_be(e),
    )?;
    let signature = rsa::pkcs1v15::Signature::try_from(sig)?;
    rsa::pkcs1v15::VerifyingKey::<rsa::sha2::Sha256>::new(key).verify(msg, &signature)
}

/// The key's fields decode, make a key, and the signature verifies under it.
pub open spec fn rs256_valid(cert: Cert, msg: Seq<u8>, sig: Seq<u8>) -> bool {
    &&& b64url_decoded(cert.n@) is Some
    &&& b64url_decoded(cert.e@) is Some
    &&& rsa_key_accepted(b64url_decoded(cert.n@)->0, b64url_decoded(cert.e@)->0)
    &&& rs256_verifies(b64url_decoded(cert.n@)->0, b64url_decoded(cert.e@)->0, msg, sig)
}

/// The outcome of an RS256 check of `sig` over `msg` under `cert`, stage by
/// stage: the key's fields decode, they make a key, the signature verifies.
pub open spec fn rs256_outcome_matches(
    cert: Cert,
    msg: Seq<u8>,
    sig: Seq<u8>,
    r: Result<(), TokenError>,
) -> bool {
    let n = b64url_decoded(cert.n@);
    let e = b64url_decoded(cert.e@);
    if n is None || e is None {
        r matches Err(TokenError::Base64DecodeError(_))
    } else if !rsa_key_accepted(n->0, e->0) {
        r matches Err(TokenError::RS256Error(_))
    } else if !rs256_verifies(n->0, e->0, msg, sig) {
        r matches Err(TokenError::RS256SignatureError(_))
    } else {
        r is Ok
    }
}

/// Verifies the RS256 signature `sig` of the signed content `msg` under the
/// key `cert`.
pub fn validate_rs256(cert: &Cert, msg: &str, sig: &[u8]) -> (r: Result<(), TokenError>)
    ensures
        rs256_outcome_matches(*cert, msg.spec_bytes(), sig@, r),
        r is Ok <==> rs256_valid(*cert, msg.spec_bytes(), sig@),
{
    let dn = match b64url_decode(cert.n.as_str()) {
        Ok(v) => v,
        Err(err) => return Err(TokenError::Base64DecodeError(err)),
    };
    let de = match b64url_decode(cert.e.as_str()) {
        Ok(v) => v,
        Err(err) => return Err(TokenError::Base64DecodeError(err)),
    };
    match check_rsa_public_key(dn.as_slice(), de.as_slice()) {
        Ok(()) => {},
        Err(err) => return Err(TokenError::RS256Error(err)),
    }
    match verify_pkcs1v15_sha256(dn.as_slice(), de.as_slice(), msg.as_bytes(), sig) {
        Ok(()) => Ok(()),
        Err(err) => Err(TokenError::RS256SignatureError(err)),
    }
}

/// `aud` is trusted: the trusted set is empty, which skips the check, or
/// holds `aud` exactly.
pub open spec fn audience_ok(client_ids: Seq<Seq<char>>, aud: Seq<char>) -> bool {
    client_ids.len() == 0 || client_ids.contains(aud)
}

/// The clock `now` has not passed the expiry `exp`.
pub open spec fn not_expired(now: u64, exp: u64) -> bool {
    now <= exp
}

/// The claims pass all three checks.
pub open spec fn claims_ok(client_ids: Seq<Seq<char>>, payload: GooglePayload, now: u64) -> bool {
    &&& audience_ok(client_ids, payload.aud@)
    &&& is_google_issuer(payload.iss@)
    &&& not_expired(now, payload.exp)
}

/// The outcome of the claim checks, taken in order: audience, issuer, expiry.
pub open spec fn claims_outcome_matches(
    client_ids: Seq<Seq<char>>,
    payload: GooglePayload,
    now: u64,
    r: Result<(), TokenError>,
) -> bool {
    if !audience_ok(client_ids, payload.aud@) {
        (r matches Err(TokenError::IDTokenClientIDNotFoundError(e)) && e.get@ == payload.aud@
            && views(e.expected@) == client_ids)
    } else if !is_google_issuer(payload.iss@) {
        (r matches Err(TokenError::GoogleIssuerNotMatchError(e)) && e.get@ == payload.iss@
            && e.expected@ == seq![GOOGLE_ISS_URL, GOOGLE_ISS_HOST])
    } else if !not_expired(now, payload.exp) {
        r == Err::<(), TokenError>(
            TokenError::IDTokenExpiredError(IDTokenExpiredError { now, exp: payload.exp }),
        )
    } else {
        r is Ok
    }
}

/// `aud` is one of `client_ids`.
fn contains_id(client_ids: &Vec<String>, aud: &str) -> (r: bool)
    ensures
        r == views(client_ids@).contains(aud@),
{
    let mut i: usize = 0;
    while i < client_ids.len()
        invariant
            i <= client_ids@.len(),
            forall|j: int| 0 <= j < i ==> client_ids@[j]@ != aud@,
        decreases client_ids.len() - i,
    {
        if str_eq(client_ids[i].as_str(), aud) {
            assert(views(client_ids@)[i as int] == aud@);
            return true;
        }
        i = i + 1;
    }
    assert(forall|j: int| 0 <= j < views(client_ids@).len() ==> views(client_ids@)[j] != aud@);
    false
}

/// Checks the claims of an ID token at time `now`: `aud` against the trusted
/// client ids (an empty list skips this), `iss` against the accepted issuers,
/// and `exp` against the clock.
pub fn validate_info(client_ids: &Vec<String>, payload: &GooglePayload, now: u64) -> (r: Result<
    (),
    TokenError,
>)
    ensures
        claims_outcome_matches(views(client_ids@), *payload, now, r),
        r is Ok <==> claims_ok(views(client_ids@), *payload, now),
{
    if client_ids.len() > 0 && !contains_id(client_ids, payload.aud.as_str()) {
        return Err(
            TokenError::IDTokenClientIDNotFoundError(
                IDTokenClientIDNotFoundError::new(payload.aud.as_str(), client_ids),
            ),
        );
    }
    if !(str_eq(payload.iss.as_str(), GOOGLE_ISS_URL) || str_eq(
        payload.iss.as_str(),
        GOOGLE_ISS_HOST,
    )) {
        return Err(
            TokenError::GoogleIssuerNotMatchError(
                GoogleIssuerNotMatchError::new(payload.iss.as_str()),
            ),
        );
    }
    if now > payload.exp {
        return Err(TokenError::IDTokenExpiredError(IDTokenExpiredError::new(now, payload.exp)));
    }
    Ok(())
}

/// Checks the claims against a single trusted client id; an empty id skips
/// the audience check.
pub fn validate_id_token_info(client_id: &str, payload: &GooglePayload, now: u64) -> (r: Result<
    (),
    TokenError,
>)
    ensures
        client_id@.len() == 0 ==> claims_outcome_matches(seq![], *payload, now, r),
        client_id@.len() > 0 ==> claims_outcome_matches(seq![client_id@], *payload, now, r),
{
    let mut ids: Vec<String> = Vec::new();
    if client_id.unicode_len() > 0 {
        ids.push(client_id.to_owned());
    }
    assert(client_id@.len() == 0 ==> views(ids@) =~= seq![]);
    assert(client_id@.len() > 0 ==> views(ids@) =~= seq![client_id@]);
    validate_info(&ids, payload, now)
}

/// The name of the one algorithm that is implemented.
pub open spec fn rs256_name() -> Seq<char> {
    seq!['R', 'S', '2', '5', '6']
}

/// Checks the signature of the parsed token under `cert`, by the algorithm
/// that the header names; any algorithm but RS256 is refused.
pub fn do_validate(cert: &Cert, header: &JwtHeader, parser: &JwtParser) -> (r: Result<
    (),
    TokenError,
>)
    requires
        parser.parts@.len() == EXPECTED_SEGMENTS_COUNT,
    ensures
        signature_outcome_matches(*cert, *header, *parser, r),
{
    let rs256 = "RS256";
    proof {
        reveal_strlit("RS256");
        assert(rs256@ =~= rs256_name());
    }
    if str_eq(header.alg.as_str(), rs256) {
        let msg = parser.msg();
        let text = msg.as_str();
        assert(text.spec_bytes() == signed_content(parser.parts@[0]@, parser.parts@[1]@));
        validate_rs256(cert, text, parser.sig.as_slice())
    } else {
        Err(
            TokenError::HashAlgorithmUnimplementedError(
                HashAlgorithmUnimplementedError::new(header.alg.as_str()),
            ),
        )
    }
}

/// The outcome of checking the parsed token's signature under `cert`: any
/// algorithm but RS256 is refused, naming it; RS256 goes by
/// `rs256_outcome_matches` over the segments as written.
pub open spec fn signature_outcome_matches(
    cert: Cert,
    header: JwtHeader,
    parser: JwtParser,
    r: Result<(), TokenError>,
) -> bool {
    if header.alg@ != rs256_name() {
        r matches Err(TokenError::HashAlgorithmUnimplementedError(e)) && e.get@ == header.alg@
    } else {
        rs256_outcome_matches(
            cert,
            signed_content(parser.parts@[0]@, parser.parts@[1]@),
            parser.sig@,
            r,
        )
    }
}

/// The bytes that the signature covers: the header and payload segments as
/// written, joined by a dot, in UTF-8.
pub open spec fn signed_content(header: Seq<char>, payload: Seq<char>) -> Seq<u8> {
    vstd::utf8::encode_utf8(header + seq!['.'] + payload)
}

} // verus!
