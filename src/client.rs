//! The verifying client: its trusted client ids, its network timeout, and
//! the pipeline that takes a parsed token to its verified claims.
use vstd::prelude::*;
use crate::certs::{cert_matches, is_first_match, Certs};
use crate::views;
use crate::error::{IDTokenExpiredError, TokenError};
use crate::jwt_parser::{JwtHeader, JwtParser, EXPECTED_SEGMENTS_COUNT};
use crate::output::GooglePayload;
use crate::validate::{
    audience_ok, claims_ok, claims_outcome_matches, do_validate, not_expired, rs256_name,
    rs256_valid, signature_outcome_matches, signed_content, validate_info,
};
use crate::{is_google_issuer, str_eq, DEFAULT_TIMEOUT};
use vstd::string::{StrSliceExecFns, StringExecFns};

verus! {

/// The endpoint that answers with the user data of an access token.
pub const GOOGLE_OAUTH_V3_USER_INFO_API: &'static str = "https://www.googleapis.com/oauth2/v3/userinfo";

/// The endpoint that publishes the provider's signing keys.
pub const GOOGLE_SA_CERTS_URL: &'static str = "https://www.googleapis.com/oauth2/v3/certs";

/// A span of time for network calls: whole seconds and nanoseconds.
#[derive(Debug, Clone, Copy, PartialEq, Eq)]
pub struct Timeout {
    pub secs: u64,
    pub nanos: u32,
}

impl Timeout {
    pub open spec fn is_zero_spec(&self) -> bool {
        self.secs == 0 && self.nanos == 0
    }

    pub fn from_secs(secs: u64) -> (r: Timeout)
        ensures
            r.secs == secs,
            r.nanos == 0,
    {
        Timeout { secs, nanos: 0 }
    }

    /// This timeout, unless `d` is non-zero: a zero timeout is ignored.
    pub fn replaced_by(self, d: Timeout) -> (r: Timeout)
        ensures
            d.is_zero_spec() ==> r == self,
            !d.is_zero_spec() ==> r == d,
    {
        if d.is_zero() {
            self
        } else {
            d
        }
    }

    pub fn is_zero(&self) -> (r: bool)
        ensures
            r == self.is_zero_spec(),
    {
        self.secs == 0 && self.nanos == 0
    }
}

/// The ids of `ids` that are not empty, in order.
pub open spec fn non_empty_ids(ids: Seq<Seq<char>>) -> Seq<Seq<char>>
    decreases ids.len(),
{
    if ids.len() == 0 {
        ids
    } else {
        let prev = non_empty_ids(ids.drop_last());
        if ids.last().len() > 0 {
            prev.push(ids.last())
        } else {
            prev
        }
    }
}

/// The ids of `ids` other than `id`, in order.
pub open spec fn without_id(ids: Seq<Seq<char>>, id: Seq<char>) -> Seq<Seq<char>>
    decreases ids.len(),
{
    if ids.len() == 0 {
        ids
    } else {
        let prev = without_id(ids.drop_last(), id);
        if ids.last() != id {
            prev.push(ids.last())
        } else {
            prev
        }
    }
}

/// The ID token is accepted: its claims pass, its header names RS256, and
/// the first key with the header's algorithm and key id verifies its
/// signature over the segments as written.
pub open spec fn id_token_accepted(
    client_ids: Seq<Seq<char>>,
    header: JwtHeader,
    payload: GooglePayload,
    certs: Certs,
    parser: JwtParser,
    now: u64,
) -> bool {
    &&& claims_ok(client_ids, payload, now)
    &&& header.alg@ == rs256_name()
    &&& exists|i: int|
        is_first_match(certs.keys@, header.alg@, header.kid@, i) && rs256_valid(
            #[trigger] certs.keys@[i],
            signed_content(parser.parts@[0]@, parser.parts@[1]@),
            parser.sig@,
        )
}

/// The outcome without its success value.
pub open spec fn unit_of(r: Result<GooglePayload, TokenError>) -> Result<(), TokenError> {
    match r {
        Ok(_) => Ok(()),
        Err(e) => Err(e),
    }
}

/// A token whose claims pass, whose header names RS256, and whose signature
/// verifies under the one key of the set with the header's algorithm and
/// key id, is accepted.
pub proof fn lemma_valid_token_accepted(
    client_ids: Seq<Seq<char>>,
    header: JwtHeader,
    payload: GooglePayload,
    certs: Certs,
    parser: JwtParser,
    now: u64,
    i: int,
)
    requires
        claims_ok(client_ids, payload, now),
        header.alg@ == rs256_name(),
        0 <= i < certs.keys@.len(),
        cert_matches(certs.keys@[i], header.alg@, header.kid@),
        forall|j: int|
            0 <= j < certs.keys@.len() && cert_matches(#[trigger] certs.keys@[j], header.alg@, header.kid@)
                ==> j == i,
        rs256_valid(
            certs.keys@[i],
            signed_content(parser.parts@[0]@, parser.parts@[1]@),
            parser.sig@,
        ),
    ensures
        id_token_accepted(client_ids, header, payload, certs, parser, now),
{
    assert(is_first_match(certs.keys@, header.alg@, header.kid@, i));
}

/// The client: the audiences it trusts and the timeout of its network calls.
#[derive(Debug, Clone)]
pub struct Client {
    pub client_ids: Vec<String>,
    pub timeout: Timeout,
}

impl Client {
    /// The trusted client ids, as character sequences.
    pub open spec fn ids(&self) -> Seq<Seq<char>> {
        views(self.client_ids@)
    }

    /// A client that trusts `client_id`.
    pub fn new(client_id: &str) -> (r: Client)
        ensures
            r.ids() == seq![client_id@],
            r.timeout == (Timeout { secs: DEFAULT_TIMEOUT, nanos: 0 }),
    {
        let mut ids: Vec<String> = Vec::new();
        ids.push(client_id.to_owned());
        let r = Self::new_with_vec(&ids);
        assert(views(ids@) =~= seq![client_id@]);
        r
    }

    /// A client that trusts each of `client_ids`, as given.
    pub fn new_with_vec(client_ids: &Vec<String>) -> (r: Client)
        ensures
            r.ids() == views(client_ids@),
            r.timeout == (Timeout { secs: DEFAULT_TIMEOUT, nanos: 0 }),
    {
        Client {
            client_ids: crate::copy_strings(client_ids),
            timeout: Timeout::from_secs(DEFAULT_TIMEOUT),
        }
    }

    /// A client that trusts each of `client_ids` but the empty ones.
    pub fn new_with_non_empty_ids(client_ids: &Vec<String>) -> (r: Client)
        ensures
            r.ids() == non_empty_ids(views(client_ids@)),
            r.timeout == (Timeout { secs: DEFAULT_TIMEOUT, nanos: 0 }),
    {
        let mut ids: Vec<String> = Vec::new();
        let mut i: usize = 0;
        assert(views(client_ids@).subrange(0, 0) =~= Seq::<Seq<char>>::empty());
        assert(views(ids@) =~= Seq::<Seq<char>>::empty());
        while i < client_ids.len()
            invariant
                i <= client_ids@.len(),
                views(ids@) == non_empty_ids(views(client_ids@).subrange(0, i as int)),
            decreases client_ids.len() - i,
        {
            let ghost before = views(client_ids@).subrange(0, i as int);
            assert(views(client_ids@).subrange(0, i + 1).drop_last() =~= before);
            assert(views(client_ids@).subrange(0, i + 1).last() == client_ids@[i as int]@);
            if client_ids[i].as_str().unicode_len() > 0 {
                let ghost prev = ids@;
                ids.push(client_ids[i].clone());
                assert(views(ids@) =~= views(prev).push(client_ids@[i as int]@));
            }
            i = i + 1;
        }
        assert(views(client_ids@).subrange(0, client_ids@.len() as int) =~= views(client_ids@));
        Client { client_ids: ids, timeout: Timeout::from_secs(DEFAULT_TIMEOUT) }
    }

    /// Trusts `client_id` from now on, unless it is empty or already trusted.
    pub fn add_client_id(&mut self, client_id: &str)
        ensures
            final(self).timeout == old(self).timeout,
            client_id@.len() == 0 || old(self).ids().contains(client_id@) ==> final(self).ids()
                == old(self).ids(),
            client_id@.len() > 0 && !old(self).ids().contains(client_id@) ==> final(self).ids()
                == old(self).ids().push(client_id@),
    {
        if client_id.unicode_len() == 0 {
            return;
        }
        let mut i: usize = 0;
        while i < self.client_ids.len()
            invariant
                i <= self.client_ids@.len(),
                forall|j: int| 0 <= j < i ==> self.client_ids@[j]@ != client_id@,
            decreases self.client_ids.len() - i,
        {
            if str_eq(self.client_ids[i].as_str(), client_id) {
                assert(self.ids()[i as int] == client_id@);
                return;
            }
            i = i + 1;
        }
        assert(!self.ids().contains(client_id@)) by {
            assert(forall|j: int| 0 <= j < self.ids().len() ==> self.ids()[j] != client_id@);
        }
        let ghost prev = self.client_ids@;
        self.client_ids.push(client_id.to_owned());
        assert(views(self.client_ids@) =~= views(prev).push(client_id@));
    }

    /// Stops trusting `client_id`; an empty id changes nothing.
    pub fn remove_client_id(&mut self, client_id: &str)
        ensures
            final(self).timeout == old(self).timeout,
            client_id@.len() == 0 ==> final(self).ids() == old(self).ids(),
            client_id@.len() > 0 ==> final(self).ids() == without_id(old(self).ids(), client_id@),
    {
        if client_id.unicode_len() == 0 {
            return;
        }
        let mut kept: Vec<String> = Vec::new();
        let mut i: usize = 0;
        assert(self.ids().subrange(0, 0) =~= Seq::<Seq<char>>::empty());
        assert(views(kept@) =~= Seq::<Seq<char>>::empty());
        while i < self.client_ids.len()
            invariant
                i <= self.client_ids@.len(),
                views(kept@) == without_id(self.ids().subrange(0, i as int), client_id@),
            decreases self.client_ids.len() - i,
        {
            let ghost before = self.ids().subrange(0, i as int);
            assert(self.ids().subrange(0, i + 1).drop_last() =~= before);
            assert(self.ids().subrange(0, i + 1).last() == self.client_ids@[i as int]@);
            if !str_eq(self.client_ids[i].as_str(), client_id) {
                let ghost prev = kept@;
                kept.push(self.client_ids[i].clone());
                assert(views(kept@) =~= views(prev).push(self.client_ids@[i as int]@));
            }
            i = i + 1;
        }
        assert(self.ids().subrange(0, self.client_ids@.len() as int) =~= self.ids());
        self.client_ids = kept;
    }

    /// Sets the timeout of network calls; a zero timeout is ignored.
    pub fn timeout(self, d: Timeout) -> (r: Client)
        ensures
            r.client_ids == self.client_ids,
            d.is_zero_spec() ==> r.timeout == self.timeout,
            !d.is_zero_spec() ==> r.timeout == d,
    {
        let mut c = self;
        c.timeout = c.timeout.replaced_by(d);
        c
    }

    /// Verifies a parsed ID token at time `now`, with its decoded `header`
    /// and `payload`, against the key set `certs`: the claims first, then
    /// the key that the header's `alg` and `kid` select, then the signature
    /// over the segments as written. On success the payload is returned.
    pub fn validate_id_token(
        &self,
        parser: &JwtParser,
        header: &JwtHeader,
        payload: GooglePayload,
        certs: &Certs,
        now: u64,
    ) -> (r: Result<GooglePayload, TokenError>)
        requires
            parser.parts@.len() == EXPECTED_SEGMENTS_COUNT,
        ensures
            r is Ok ==> r->Ok_0 == payload,
            r is Ok <==> id_token_accepted(self.ids(), *header, payload, *certs, *parser, now),
            !claims_ok(self.ids(), payload, now) ==> claims_outcome_matches(
                self.ids(),
                payload,
                now,
                unit_of(r),
            ),
            !audience_ok(self.ids(), payload.aud@) ==> (r is Err
                && r->Err_0 is IDTokenClientIDNotFoundError),
            audience_ok(self.ids(), payload.aud@) && is_google_issuer(payload.iss@) && !not_expired(
                now,
                payload.exp,
            ) ==> r == Err::<GooglePayload, TokenError>(
                TokenError::IDTokenExpiredError(IDTokenExpiredError { now, exp: payload.exp }),
            ),
            claims_ok(self.ids(), payload, now) && (forall|i: int|
                !is_first_match(certs.keys@, header.alg@, header.kid@, i)) ==> (r matches Err(
                TokenError::IDTokenCertNotFoundError(e),
            ) && e.alg@ == header.alg@ && e.kid@ == header.kid@),
            forall|i: int|
                claims_ok(self.ids(), payload, now) && #[trigger] is_first_match(
                    certs.keys@,
                    header.alg@,
                    header.kid@,
                    i,
                ) ==> signature_outcome_matches(certs.keys@[i], *header, *parser, unit_of(r)),
            header.alg@ != rs256_name() ==> r is Err,
    {
        match validate_info(&self.client_ids, &payload, now) {
            Ok(()) => {},
            Err(e) => return Err(e),
        }
        let cert = match certs.find_cert(header.alg.as_str(), header.kid.as_str()) {
            Ok(c) => c,
            Err(e) => {
                proof {
                    assert forall|i: int| !is_first_match(certs.keys@, header.alg@, header.kid@, i) by {
                        if is_first_match(certs.keys@, header.alg@, header.kid@, i) {
                            assert(crate::certs::cert_matches(certs.keys@[i], header.alg@, header.kid@));
                        }
                    }
                }
                return Err(e);
            },
        };
        let ghost idx = choose|i: int|
            is_first_match(certs.keys@, header.alg@, header.kid@, i) && cert == certs.keys@[i];
        proof {
            assert forall|i: int| is_first_match(certs.keys@, header.alg@, header.kid@, i) implies i
                == idx by {
                if i < idx {
                    assert(!crate::certs::cert_matches(certs.keys@[i], header.alg@, header.kid@));
                } else if i > idx {
                    assert(!crate::certs::cert_matches(certs.keys@[idx], header.alg@, header.kid@));
                }
            }
        }
        match do_validate(&cert, header, parser) {
            Ok(()) => Ok(payload),
            Err(e) => Err(e),
        }
    }

    /// The address of the user-info request for `token`.
    pub fn userinfo_url(token: &str) -> (r: String)
        ensures
            r@ == GOOGLE_OAUTH_V3_USER_INFO_API@ + "?access_token="@ + token@,
    {
        let mut url = String::from_str(GOOGLE_OAUTH_V3_USER_INFO_API);
        url.append("?access_token=");
        url.append(token);
        url
    }
}

} // verus!
