//! Splitting a compact JWT into its three base64url segments.
use vstd::prelude::*;
use crate::codec::{b64url_decode, b64url_decoded};
use crate::views;
use crate::error::{IDTokenSplitError, TokenError};
use crate::utils::{lemma_split_on_len, split_char, split_on};
use vstd::string::StrSliceExecFns;

verus! {

/// How many segments a compact JWT has.
pub const EXPECTED_SEGMENTS_COUNT: usize = 3;

/// The pieces of `s` between dots.
pub open spec fn segments(s: Seq<char>) -> Seq<Seq<char>> {
    split_on(s, '.')
}

/// The token has exactly three segments and none of them is empty.
pub open spec fn is_three_part(token: Seq<char>) -> bool {
    let parts = segments(token);
    &&& parts.len() == EXPECTED_SEGMENTS_COUNT
    &&& parts[0].len() > 0
    &&& parts[1].len() > 0
    &&& parts[2].len() > 0
}

/// Each of the three segments of the token is valid base64url.
pub open spec fn segments_decode(token: Seq<char>) -> bool {
    let parts = segments(token);
    &&& b64url_decoded(parts[0]) is Some
    &&& b64url_decoded(parts[1]) is Some
    &&& b64url_decoded(parts[2]) is Some
}

/// A compact JWT after framing: its segments as written, and what the
/// three of them decode to.
#[derive(Debug)]
pub struct JwtParser {
    /// The segments of the token, as written.
    pub parts: Vec<String>,
    /// The decoded header segment: the header's JSON text.
    pub header: Vec<u8>,
    /// The decoded payload segment: the claims' JSON text.
    pub payload: Vec<u8>,
    /// The decoded signature segment.
    pub sig: Vec<u8>,
}

impl JwtParser {
    /// The parser holds the segments of `token` and what they decode to.
    pub open spec fn frames(&self, token: Seq<char>) -> bool {
        let parts = segments(token);
        &&& views(self.parts@) == parts
        &&& b64url_decoded(parts[0]) == Some(self.header@)
        &&& b64url_decoded(parts[1]) == Some(self.payload@)
        &&& b64url_decoded(parts[2]) == Some(self.sig@)
    }

    /// Splits `token` on dots and decodes its three segments.
    pub fn parse(token: &str) -> (r: Result<JwtParser, TokenError>)
        ensures
            match r {
                Ok(p) => is_three_part(token@) && segments_decode(token@) && p.frames(token@),
                Err(TokenError::IDTokenSplitError(e)) => {
                    &&& !is_three_part(token@)
                    &&& e.expected == EXPECTED_SEGMENTS_COUNT
                    &&& e.get == segments(token@).len()
                },
                Err(TokenError::Base64DecodeError(_)) => is_three_part(token@) && !segments_decode(
                    token@,
                ),
                Err(_) => false,
            },
    {
        let parts = split_char(token, '.');
        proof {
            lemma_split_on_len(token@, '.');
        }
        if parts.len() != EXPECTED_SEGMENTS_COUNT || parts[0].unicode_len() == 0
            || parts[1].unicode_len() == 0 || parts[2].unicode_len() == 0 {
            return Err(
                TokenError::IDTokenSplitError(
                    IDTokenSplitError::new(EXPECTED_SEGMENTS_COUNT, parts.len()),
                ),
            );
        }
        let header = match b64url_decode(parts[0].as_str()) {
            Ok(v) => v,
            Err(e) => return Err(TokenError::Base64DecodeError(e)),
        };
        let payload = match b64url_decode(parts[1].as_str()) {
            Ok(v) => v,
            Err(e) => return Err(TokenError::Base64DecodeError(e)),
        };
        let sig = match b64url_decode(parts[2].as_str()) {
            Ok(v) => v,
            Err(e) => return Err(TokenError::Base64DecodeError(e)),
        };
        Ok(JwtParser { parts, header, payload, sig })
    }

    /// The signed content: the header and payload segments as written,
    /// joined by a dot.
    pub fn msg(&self) -> (r: String)
        requires
            self.parts@.len() == EXPECTED_SEGMENTS_COUNT,
        ensures
            r@ == self.parts@[0]@ + seq!['.'] + self.parts@[1]@,
    {
        let mut m = self.parts[0].clone();
        proof {
            reveal_strlit(".");
        }
        m.append(".");
        m.append(self.parts[1].as_str());
        m
    }
}

/// The header of a JWT: its algorithm, type and key id.
#[derive(Debug, Clone)]
pub struct JwtHeader {
    pub alg: String,
    pub typ: String,
    pub kid: String,
}

} // verus!
