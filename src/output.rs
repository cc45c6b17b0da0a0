//! The user data that a verified token carries.
use vstd::prelude::*;

verus! {

/// The claims of an ID token. `aud`, `exp`, `iat`, `iss` and `sub` are
/// always present; the profile claims may be absent.
#[derive(Debug, Clone)]
#[non_exhaustive]
pub struct GooglePayload {
    pub aud: String,
    pub exp: u64,
    pub iat: u64,
    pub iss: String,
    pub sub: String,
    pub at_hash: Option<String>,
    pub azp: Option<String>,
    pub email: Option<String>,
    pub email_verified: Option<bool>,
    pub family_name: Option<String>,
    pub given_name: Option<String>,
    pub hd: Option<String>,
    pub locale: Option<String>,
    pub name: Option<String>,
    pub nonce: Option<String>,
    pub picture: Option<String>,
    pub nbf: Option<u64>,
    pub jti: Option<String>,
}

impl GooglePayload {
    /// The claims with the mandatory fields set and no profile claim.
    pub fn new(aud: String, exp: u64, iat: u64, iss: String, sub: String) -> (r: GooglePayload)
        ensures
            r.aud == aud,
            r.exp == exp,
            r.iat == iat,
            r.iss == iss,
            r.sub == sub,
            r.at_hash is None,
            r.azp is None,
            r.email is None,
            r.email_verified is None,
            r.family_name is None,
            r.given_name is None,
            r.hd is None,
            r.locale is None,
            r.name is None,
            r.nonce is None,
            r.picture is None,
            r.nbf is None,
            r.jti is None,
    {
        GooglePayload {
            aud,
            exp,
            iat,
            iss,
            sub,
            at_hash: None,
            azp: None,
            email: None,
            email_verified: None,
            family_name: None,
            given_name: None,
            hd: None,
            locale: None,
            name: None,
            nonce: None,
            picture: None,
            nbf: None,
            jti: None,
        }
    }
}

/// The user data that the token-introspection endpoint returns for an
/// access token.
#[derive(Debug, Clone)]
#[non_exhaustive]
pub struct GoogleAccessTokenPayload {
    pub sub: String,
    pub picture: Option<String>,
    pub name: Option<String>,
    pub locale: Option<String>,
    pub given_name: Option<String>,
    pub email: Option<String>,
    pub email_verified: Option<bool>,
}

impl GoogleAccessTokenPayload {
    /// The user data with the subject set and no profile field.
    pub fn new(sub: String) -> (r: GoogleAccessTokenPayload)
        ensures
            r.sub == sub,
            r.picture is None,
            r.name is None,
            r.locale is None,
            r.given_name is None,
            r.email is None,
            r.email_verified is None,
    {
        GoogleAccessTokenPayload {
            sub,
            picture: None,
            name: None,
            locale: None,
            given_name: None,
            email: None,
            email_verified: None,
        }
    }
}

} // verus!
