//! The errors of token verification, one variant per stage and condition.
use vstd::prelude::*;
use crate::{copy_strings, views};

verus! {

/// The error of base64's decoders, carried through opaque.
#[verifier::external_type_specification]
#[verifier::external_body]
pub struct ExDecodeError(base64::DecodeError);

/// The error of rsa's key constructors, carried through opaque.
#[verifier::external_type_specification]
#[verifier::external_body]
pub struct ExRsaError(rsa::errors::Error);

/// The error of rsa's signature verifiers, carried through opaque.
#[verifier::external_type_specification]
#[verifier::external_body]
pub struct ExSignatureError(rsa::signature::Error);

/// Everything that can make the verification of a token fail.
#[derive(Debug)]
pub enum TokenError {
    /// A segment of the token, or a field of a key, is not unpadded base64url.
    Base64DecodeError(base64::DecodeError),
    /// The token does not split into three non-empty segments.
    IDTokenSplitError(IDTokenSplitError),
    /// The clock is past the token's `exp`.
    IDTokenExpiredError(IDTokenExpiredError),
    /// `iss` is none of the accepted issuers.
    GoogleIssuerNotMatchError(GoogleIssuerNotMatchError),
    /// `aud` is none of the trusted client ids.
    IDTokenClientIDNotFoundError(IDTokenClientIDNotFoundError),
    /// No key of the key set has the token's `alg` and `kid`.
    IDTokenCertNotFoundError(IDTokenCertNotFoundError),
    /// The signature does not verify under the key.
    RS256SignatureError(rsa::signature::Error),
    /// The key's modulus and exponent do not make an RSA public key.
    RS256Error(rsa::errors::Error),
    /// The header names an algorithm other than RS256.
    HashAlgorithmUnimplementedError(HashAlgorithmUnimplementedError),
}

/// The token split into `get` segments where `expected` were needed.
#[derive(Debug, Clone, Copy, PartialEq, Eq)]
pub struct IDTokenSplitError {
    pub expected: usize,
    pub get: usize,
}

impl IDTokenSplitError {
    pub fn new(expected: usize, get: usize) -> (r: Self)
        ensures
            r.expected == expected,
            r.get == get,
    {
        Self { expected, get }
    }
}

/// The clock read `now`, past the token's expiry `exp`.
#[derive(Debug, Clone, Copy, PartialEq, Eq)]
pub struct IDTokenExpiredError {
    pub now: u64,
    pub exp: u64,
}

impl IDTokenExpiredError {
    pub fn new(now: u64, exp: u64) -> (r: Self)
        ensures
            r.now == now,
            r.exp == exp,
    {
        Self { now, exp }
    }
}

/// The token's issuer `get` is none of `expected`.
#[derive(Debug, Clone)]
pub struct GoogleIssuerNotMatchError {
    pub get: String,
    pub expected: [&'static str; 2],
}

impl GoogleIssuerNotMatchError {
    pub fn new(get: &str) -> (r: Self)
        ensures
            r.get@ == get@,
            r.expected@ == seq![crate::GOOGLE_ISS_URL, crate::GOOGLE_ISS_HOST],
    {
        Self { get: get.to_owned(), expected: [crate::GOOGLE_ISS_URL, crate::GOOGLE_ISS_HOST] }
    }
}

/// The token's audience `get` is none of the trusted client ids `expected`.
#[derive(Debug, Clone)]
pub struct IDTokenClientIDNotFoundError {
    pub get: String,
    pub expected: Vec<String>,
}

impl IDTokenClientIDNotFoundError {
    pub fn new(get: &str, expected: &Vec<String>) -> (r: Self)
        ensures
            r.get@ == get@,
            views(r.expected@) == views(expected@),
    {
        Self { get: get.to_owned(), expected: copy_strings(expected) }
    }
}

/// No key with algorithm `alg` and key id `kid` is in the key set.
#[derive(Debug, Clone)]
pub struct IDTokenCertNotFoundError {
    pub alg: String,
    pub kid: String,
}

impl IDTokenCertNotFoundError {
    pub fn new(alg: &str, kid: &str) -> (r: Self)
        ensures
            r.alg@ == alg@,
            r.kid@ == kid@,
    {
        Self { alg: alg.to_owned(), kid: kid.to_owned() }
    }
}

/// The token's header names the algorithm `get`, which is not implemented.
#[derive(Debug, Clone)]
pub struct HashAlgorithmUnimplementedError {
    pub get: String,
}

impl HashAlgorithmUnimplementedError {
    pub fn new(get: &str) -> (r: Self)
        ensures
            r.get@ == get@,
    {
        Self { get: get.to_owned() }
    }
}

} // verus!
