//! The provider's signing keys, and how long they may be served from cache.
use vstd::prelude::*;
use crate::error::{IDTokenCertNotFoundError, TokenError};
use crate::utils::{max_age_of, parse_age_from_header, parse_max_age_from_header, parse_u64_spec};

verus! {

/// One RSA public key of the provider's key set, as a JWK: `n` and `e` are
/// the modulus and exponent in unpadded base64url, big-endian.
#[derive(Debug, Clone)]
pub struct Cert {
    pub kid: String,
    pub e: String,
    pub alg: String,
    pub kty: String,
    pub n: String,
}

/// The cached key set. It must be fetched again when `cache_until` is unset
/// or the clock has reached it (seconds since the epoch).
#[derive(Debug)]
pub struct Certs {
    pub keys: Vec<Cert>,
    pub cache_until: Option<u64>,
}

/// The key has algorithm `alg` and key id `kid`.
pub open spec fn cert_matches(c: Cert, alg: Seq<char>, kid: Seq<char>) -> bool {
    c.alg@ == alg && c.kid@ == kid
}

/// `i` is the first key of `keys` with algorithm `alg` and key id `kid`.
pub open spec fn is_first_match(keys: Seq<Cert>, alg: Seq<char>, kid: Seq<char>, i: int) -> bool {
    &&& 0 <= i < keys.len()
    &&& cert_matches(keys[i], alg, kid)
    &&& forall|j: int| 0 <= j < i ==> !cert_matches(#[trigger] keys[j], alg, kid)
}

/// Seconds of freshness left: the `max-age` less the `Age`, and never below zero.
pub open spec fn remaining_spec(max_age: u64, age: u64) -> u64 {
    if max_age > age {
        (max_age - age) as u64
    } else {
        0
    }
}

/// The moment a key set fetched at `now` stops being fresh, held at the
/// largest timestamp where the sum would not fit.
pub open spec fn expiry_spec(now: u64, max_age: u64, age: u64) -> u64 {
    if now + remaining_spec(max_age, age) <= u64::MAX {
        (now + remaining_spec(max_age, age)) as u64
    } else {
        u64::MAX
    }
}

/// Seconds of freshness left: the `max-age` less the `Age`, and never below zero.
pub fn remaining_freshness(max_age: u64, age: u64) -> (r: u64)
    ensures
        r == remaining_spec(max_age, age),
{
    if max_age > age {
        max_age - age
    } else {
        0
    }
}

impl Certs {
    /// The key set must be fetched again at time `now`.
    pub open spec fn need_refresh_spec(&self, now: u64) -> bool {
        match self.cache_until {
            None => true,
            Some(until) => until <= now,
        }
    }

    /// An empty key set that must be fetched before first use.
    pub fn new() -> (r: Certs)
        ensures
            r.keys@.len() == 0,
            r.cache_until is None,
    {
        Certs { keys: Vec::new(), cache_until: None }
    }

    /// The first key with algorithm `alg` and key id `kid`.
    pub fn find_cert(&self, alg: &str, kid: &str) -> (r: Result<Cert, TokenError>)
        ensures
            match r {
                Ok(c) => exists|i: int|
                    is_first_match(self.keys@, alg@, kid@, i) && c == #[trigger] self.keys@[i],
                Err(TokenError::IDTokenCertNotFoundError(e)) => {
                    &&& forall|i: int|
                        0 <= i < self.keys@.len() ==> !cert_matches(
                            #[trigger] self.keys@[i],
                            alg@,
                            kid@,
                        )
                    &&& e.alg@ == alg@
                    &&& e.kid@ == kid@
                },
                Err(_) => false,
            },
    {
        let mut i: usize = 0;
        while i < self.keys.len()
            invariant
                i <= self.keys@.len(),
                forall|j: int| 0 <= j < i ==> !cert_matches(#[trigger] self.keys@[j], alg@, kid@),
            decreases self.keys.len() - i,
        {
            let c = &self.keys[i];
            if crate::str_eq(c.alg.as_str(), alg) && crate::str_eq(c.kid.as_str(), kid) {
                let found = Cert {
                    kid: c.kid.clone(),
                    e: c.e.clone(),
                    alg: c.alg.clone(),
                    kty: c.kty.clone(),
                    n: c.n.clone(),
                };
                assert(is_first_match(self.keys@, alg@, kid@, i as int));
                return Ok(found);
            }
            i = i + 1;
        }
        Err(TokenError::IDTokenCertNotFoundError(IDTokenCertNotFoundError::new(alg, kid)))
    }

    /// Sets the moment the key set stops being fresh; `None` makes it stale.
    pub fn set_cache_until(&mut self, cache_until: Option<u64>)
        ensures
            final(self).keys == old(self).keys,
            final(self).cache_until == cache_until,
    {
        self.cache_until = cache_until;
    }

    /// The key set must be fetched again at time `now`: it never was, or
    /// its freshness has run out.
    pub fn need_refresh(&self, now: u64) -> (r: bool)
        ensures
            r == self.need_refresh_spec(now),
    {
        match self.cache_until {
            None => true,
            Some(until) => until <= now,
        }
    }

    /// Replaces the whole key set with `keys`, fetched at `now` with the
    /// given `max-age` and `Age`.
    pub fn refresh(&mut self, keys: Vec<Cert>, now: u64, max_age: u64, age: u64)
        ensures
            final(self).keys == keys,
            final(self).cache_until == Some(expiry_spec(now, max_age, age)),
            now + remaining_spec(max_age, age) <= u64::MAX ==> final(self).cache_until == Some(
                (now + remaining_spec(max_age, age)) as u64,
            ),
    {
        let remaining = remaining_freshness(max_age, age);
        let until = if remaining <= u64::MAX - now {
            now + remaining
        } else {
            u64::MAX
        };
        self.keys = keys;
        self.set_cache_until(Some(until));
    }

    /// Replaces the whole key set with `keys`, fetched at `now`, reading its
    /// lifetime from the response's `Cache-Control` and `Age` headers.
    pub fn refresh_from_headers(
        &mut self,
        keys: Vec<Cert>,
        now: u64,
        cache_control: Option<&str>,
        age: Option<&str>,
    )
        ensures
            final(self).keys == keys,
            final(self).cache_until == Some(
                expiry_spec(
                    now,
                    match cache_control {
                        Some(v) => max_age_of(v@),
                        None => 0,
                    },
                    match age {
                        Some(v) => match parse_u64_spec(v@) {
                            Some(a) => a,
                            None => 0,
                        },
                        None => 0,
                    },
                ),
            ),
    {
        let max_age = parse_max_age_from_header(cache_control);
        let age = parse_age_from_header(age);
        self.refresh(keys, now, max_age, age);
    }
}

/// Once stale, a key set stays stale as the clock moves on; while fresh at
/// a moment, it was fresh at every earlier moment.
pub proof fn lemma_staleness_is_monotone(c: Certs, t1: u64, t2: u64)
    requires
        t1 <= t2,
    ensures
        c.need_refresh_spec(t1) ==> c.need_refresh_spec(t2),
        !c.need_refresh_spec(t2) ==> !c.need_refresh_spec(t1),
{
}

/// After a refresh at `now`, the key set is served from cache exactly until
/// `now` plus the remaining freshness: a refresh with freshness left needs
/// no second fetch at once, and one whose freshness has elapsed does.
pub proof fn lemma_refresh_freshness(after: Certs, now: u64, max_age: u64, age: u64, t: u64)
    requires
        after.cache_until == Some(expiry_spec(now, max_age, age)),
        now <= t,
    ensures
        after.need_refresh_spec(t) <==> t >= expiry_spec(now, max_age, age),
        remaining_spec(max_age, age) > 0 && now + remaining_spec(max_age, age) <= u64::MAX
            ==> !after.need_refresh_spec(now),
        remaining_spec(max_age, age) == 0 ==> after.need_refresh_spec(now),
        t - now >= remaining_spec(max_age, age) ==> after.need_refresh_spec(t),
{
}

} // verus!
