//! Server-side verification of Google identity tokens.
//!
//! A compact JWT is split and decoded (`jwt_parser`), its claims are checked
//! against the caller's trusted audiences, the accepted issuers and a clock
//! (`validate`), its signing key is looked up in a cached key set (`certs`)
//! and its RS256 signature is checked. The network and JSON layers stay with
//! the caller: the library works on the values they produce.
use vstd::prelude::*;

pub mod certs;
pub mod client;
pub mod codec;
pub mod error;
pub mod jwt_parser;
pub mod output;
pub mod utils;
pub mod validate;

pub use certs::{Cert, Certs};
pub use client::{Client, Timeout};
pub use jwt_parser::{JwtHeader, JwtParser};
pub use output::{GoogleAccessTokenPayload, GooglePayload};
pub use error::{
    GoogleIssuerNotMatchError, HashAlgorithmUnimplementedError, IDTokenCertNotFoundError,
    IDTokenClientIDNotFoundError, IDTokenExpiredError, IDTokenSplitError, TokenError,
};

verus! {

/// Seconds allowed for a network call when the caller sets no other timeout.
pub const DEFAULT_TIMEOUT: u64 = 5;

/// The issuer literal with URL scheme.
pub const GOOGLE_ISS_URL: &'static str = "https://accounts.google.com";

/// The issuer literal without URL scheme.
pub const GOOGLE_ISS_HOST: &'static str = "accounts.google.com";

/// The issuers that the provider is known to write into `iss`.
pub open spec fn is_google_issuer(iss: Seq<char>) -> bool {
    iss == GOOGLE_ISS_URL@ || iss == GOOGLE_ISS_HOST@
}

/// The views of a list of strings.
pub open spec fn views(v: Seq<String>) -> Seq<Seq<char>> {
    v.map_values(|s: String| s@)
}

/// A copy of a list of strings, element by element.
pub fn copy_strings(v: &Vec<String>) -> (r: Vec<String>)
    ensures
        views(r@) == views(v@),
{
    let mut r: Vec<String> = Vec::new();
    let mut i: usize = 0;
    while i < v.len()
        invariant
            i <= v.len(),
            views(r@) == views(v@.subrange(0, i as int)),
        decreases v.len() - i,
    {
        let ghost prev = r@;
        r.push(v[i].clone());
        assert(v@.subrange(0, i + 1) == v@.subrange(0, i as int).push(v@[i as int]));
        assert(views(r@) =~= views(prev).push(v@[i as int]@));
        i = i + 1;
    }
    assert(v@.subrange(0, v.len() as int) == v@);
    r
}

/// Character-wise equality of two string slices.
pub fn str_eq(a: &str, b: &str) -> (r: bool)
    ensures
        r == (a@ == b@),
{
    let n = a.unicode_len();
    if n != b.unicode_len() {
        return false;
    }
    let mut i: usize = 0;
    while i < n
        invariant
            n == a@.len(),
            n == b@.len(),
            i <= n,
            a@.subrange(0, i as int) == b@.subrange(0, i as int),
        decreases n - i,
    {
        if a.get_char(i) != b.get_char(i) {
            assert(a@[i as int] != b@[i as int]);
            return false;
        }
        assert(a@.subrange(0, i + 1) == a@.subrange(0, i as int).push(a@[i as int]));
        assert(b@.subrange(0, i + 1) == b@.subrange(0, i as int).push(b@[i as int]));
        i = i + 1;
    }
    assert(a@ == a@.subrange(0, n as int));
    assert(b@ == b@.subrange(0, n as int));
    true
}

} // verus!
