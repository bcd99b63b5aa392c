//! The authentication service: the JWKS cache and the token cache, owned by
//! the process and handed to the interceptor, plus the read-through
//! validation flow.
//!
//! The service never does I/O.  Where the original flow would fetch the key
//! set over HTTPS, `get_or_validate` answers `NeedsRefresh`; the caller
//! fetches the document (without holding any lock), hands its body to
//! `apply_refresh`, and finishes with `validate_after_refresh`, which never
//! asks for a second fetch: a key id still unresolved after one refresh is
//! `KeyNotFound`.

use vstd::prelude::*;

use crate::claims::{Claims, ClaimsV};
use crate::errors::AuthError;
use crate::jwks::{kid_map, JwksSnapshot, SigningKey, SigningKeyV};
use crate::jwks_parse::{accepted_keys, jwks_document, parse_jwks};
use crate::jwt::jwt_header;
use crate::token_cache::{cache_state, CacheState, TokenCache};
use crate::validator::{claims_result_matches, spec_validate_with_key, validate_with_key};

verus! {

/// The validator's verdict on `token` against a snapshot, or `None` when the
/// token's key id is absent from the snapshot and only a refresh can settle
/// the question.
pub open spec fn spec_validate_uncached(
    snap: Map<Seq<char>, SigningKeyV>,
    token: Seq<char>,
    issuer: Seq<char>,
    now: u64,
) -> Option<Result<ClaimsV, AuthError>> {
    match jwt_header(token) {
        None => Some(Err(AuthError::MalformedToken)),
        Some(h) => match h.0 {
            None => Some(Err(AuthError::MalformedToken)),
            Some(kid) => if !snap.contains_key(kid) {
                None
            } else {
                Some(spec_validate_with_key(snap[kid], token, issuer, now))
            },
        },
    }
}

/// The verdict once one refresh has already happened: a key id still absent
/// from the snapshot is `KeyNotFound`, whether it was rotated out, wrong,
/// or the provider was unreachable and the snapshot kept its old keys.
pub open spec fn spec_validate_after_refresh(
    snap: Map<Seq<char>, SigningKeyV>,
    token: Seq<char>,
    issuer: Seq<char>,
    now: u64,
) -> Result<ClaimsV, AuthError> {
    match spec_validate_uncached(snap, token, issuer, now) {
        None => Err(AuthError::KeyNotFound),
        Some(m) => m,
    }
}

/// What one authentication step asks of the caller.
pub enum ValidationStep {
    /// The verdict is in; no outside work is needed.
    Done(Result<Claims, AuthError>),
    /// The token's key id is not in the snapshot: fetch the key-set
    /// document, hand it to `apply_refresh`, and call
    /// `validate_after_refresh`.  This is asked at most once per token
    /// validation.
    NeedsRefresh,
}

/// The process-wide authentication service: the key-set snapshot, the token
/// cache, and the expected issuer (opaque provider configuration).  Many
/// requests read it concurrently; a host wraps it in its own reader/writer
/// lock and keeps exclusive sections to the swap or insert itself, since
/// every expensive step (the fetch, the signature check) is done on plain
/// values before any state changes here.
pub struct AuthService {
    jwks: JwksSnapshot,
    tokens: TokenCache,
    issuer: String,
}

impl AuthService {
    /// The current key-set snapshot, as a mapping from key id to key.
    pub closed spec fn snapshot(&self) -> Map<Seq<char>, SigningKeyV> {
        self.jwks@
    }

    /// The current token cache, as a mapping from token string to claims and
    /// absolute expiry.
    pub closed spec fn cache(&self) -> Map<Seq<char>, (ClaimsV, u64)> {
        self.tokens@
    }

    /// The configured expected issuer string.
    pub closed spec fn expected_issuer(&self) -> Seq<char> {
        self.issuer@
    }

    /// Both caches are well-formed (one entry per key).
    pub closed spec fn wf(&self) -> bool {
        self.jwks.wf() && self.tokens.wf()
    }

    /// A fresh service: empty snapshot, empty token cache.
    pub fn new(issuer: String) -> (r: AuthService)
        ensures
            r.wf(),
            r.snapshot() == Map::<Seq<char>, SigningKeyV>::empty(),
            r.cache() == Map::<Seq<char>, (ClaimsV, u64)>::empty(),
            r.expected_issuer() == issuer@,
    {
        AuthService { jwks: JwksSnapshot::empty(), tokens: TokenCache::new(), issuer }
    }

    /// Install the outcome of one key-set fetch.
    ///
    /// `body` is the fetched document, or `None` when the fetch itself
    /// failed.  On success the snapshot is replaced wholesale by the
    /// document's keys — nothing of the old snapshot survives; on any
    /// failure the old snapshot is left untouched and the error is the
    /// caller's to surface.  The token cache is never touched here.
    pub fn apply_refresh(&mut self, body: Option<&str>) -> (r: Result<(), AuthError>)
        requires
            old(self).wf(),
        ensures
            final(self).wf(),
            final(self).cache() == old(self).cache(),
            final(self).expected_issuer() == old(self).expected_issuer(),
            r is Ok <==> (body matches Some(b) && jwks_document(b@) is Some),
            r matches Err(e) ==> e == AuthError::UpstreamFetchFailure && final(self).snapshot()
                == old(self).snapshot(),
            body matches Some(b) ==> (jwks_document(b@) matches Some(d) ==> final(self).snapshot()
                == kid_map(accepted_keys(d))),
    {
        let b = match body {
            None => {
                return Err(AuthError::UpstreamFetchFailure);
            },
            Some(b) => b,
        };
        match parse_jwks(b) {
            Err(e) => Err(e),
            Ok(keys) => {
                self.jwks = JwksSnapshot::from_keys(keys);
                Ok(())
            },
        }
    }

    /// Validate a token that the cache could not answer, against the current
    /// snapshot.  `None` asks the caller for a refresh; on a successful
    /// verdict the token cache learns the claims under the exact token
    /// string, with the expiry claim as the entry's absolute expiry.
    fn validate_uncached(&mut self, token: &str, now: u64) -> (r: Option<Result<Claims, AuthError>>)
        requires
            old(self).wf(),
        ensures
            final(self).wf(),
            final(self).snapshot() == old(self).snapshot(),
            final(self).expected_issuer() == old(self).expected_issuer(),
            r is None <==> spec_validate_uncached(
                old(self).snapshot(),
                token@,
                old(self).expected_issuer(),
                now,
            ) is None,
            r matches Some(res) ==> (spec_validate_uncached(
                old(self).snapshot(),
                token@,
                old(self).expected_issuer(),
                now,
            ) matches Some(m) && claims_result_matches(res, m)),
            r matches Some(res) ==> (res matches Ok(c) ==> final(self).cache() == old(self).cache()
                .insert(token@, (c@, c@.exp))),
            !(r matches Some(Ok(_))) ==> final(self).cache() == old(self).cache(),
    {
        let hdr = match crate::jwt::decode_token_header(token) {
            None => {
                return Some(Err(AuthError::MalformedToken));
            },
            Some(h) => h,
        };
        let kid = match hdr.kid {
            None => {
                return Some(Err(AuthError::MalformedToken));
            },
            Some(k) => k,
        };
        let key = match self.jwks.get_key(kid.as_str()) {
            None => {
                return None;
            },
            Some(k) => k.clone(),
        };
        let res = validate_with_key(&key, token, self.issuer.as_str(), now);
        match res {
            Ok(c) => {
                let exp = c.expiry();
                let cached = c.clone();
                self.tokens.insert(token.to_owned(), cached, exp);
                Some(Ok(c))
            },
            Err(e) => Some(Err(e)),
        }
    }

    /// Probe the token cache without changing anything.  A host that wants
    /// unbounded concurrent readers serves cache hits through this under a
    /// read lock, keeping exclusive sections to the brief inserts.
    pub fn peek(&self, token: &str, now: u64) -> (r: Option<Claims>)
        requires
            self.wf(),
        ensures
            r is Some <==> cache_state(self.cache(), token@, now) == CacheState::Fresh,
            r matches Some(c) ==> self.cache().contains_key(token@) && c@ == self.cache()[
                token@].0,
    {
        self.tokens.lookup(token, now)
    }

    /// Resolve a key id against the current snapshot, without changing
    /// anything and without triggering a refresh.
    pub fn resolve_key(&self, kid: &str) -> (r: Option<SigningKey>)
        requires
            self.wf(),
        ensures
            r is Some <==> self.snapshot().contains_key(kid@),
            r matches Some(k) ==> self.snapshot().contains_key(kid@) && k@ == self.snapshot()[
                kid@],
    {
        match self.jwks.get_key(kid) {
            None => None,
            Some(k) => Some(k.clone()),
        }
    }

    /// Record one finished validation: the claims are cached under the
    /// exact token string, expiring with the expiry claim.  This is the
    /// whole exclusive section a host needs for a validation it performed
    /// on plain values outside any lock.
    pub fn insert_validated(&mut self, token: String, claims: Claims)
        requires
            old(self).wf(),
        ensures
            final(self).wf(),
            final(self).snapshot() == old(self).snapshot(),
            final(self).expected_issuer() == old(self).expected_issuer(),
            final(self).cache() == old(self).cache().insert(
                token@,
                (claims@, claims@.exp),
            ),
    {
        let exp = claims.expiry();
        self.tokens.insert(token, claims, exp);
    }

    /// The configured expected issuer, for validating outside any lock.
    pub fn issuer(&self) -> (r: &str)
        ensures
            r@ == self.expected_issuer(),
    {
        self.issuer.as_str()
    }

    /// The read-through entry point of the token cache.
    ///
    /// A fresh entry for this exact token string answers at once, with no
    /// validation work and no state change.  Otherwise the token is
    /// validated against the current snapshot; an unresolved key id asks for
    /// exactly one refresh.
    pub fn get_or_validate(&mut self, token: &str, now: u64) -> (r: ValidationStep)
        requires
            old(self).wf(),
        ensures
            final(self).wf(),
            final(self).snapshot() == old(self).snapshot(),
            final(self).expected_issuer() == old(self).expected_issuer(),
            cache_state(old(self).cache(), token@, now) == CacheState::Fresh ==> (
            final(self).cache() == old(self).cache() && (r matches ValidationStep::Done(res)
                && res matches Ok(c) && c@ == old(self).cache()[token@].0)),
            cache_state(old(self).cache(), token@, now) != CacheState::Fresh ==> match r {
                ValidationStep::NeedsRefresh => spec_validate_uncached(
                    old(self).snapshot(),
                    token@,
                    old(self).expected_issuer(),
                    now,
                ) is None && final(self).cache() == old(self).cache(),
                ValidationStep::Done(res) => (spec_validate_uncached(
                    old(self).snapshot(),
                    token@,
                    old(self).expected_issuer(),
                    now,
                ) matches Some(m) && claims_result_matches(res, m)) && (match res {
                    Ok(c) => final(self).cache() == old(self).cache().insert(
                        token@,
                        (c@, c@.exp),
                    ),
                    Err(_) => final(self).cache() == old(self).cache(),
                }),
            },
    {
        if let Some(c) = self.tokens.lookup(token, now) {
            return ValidationStep::Done(Ok(c));
        }
        match self.validate_uncached(token, now) {
            None => ValidationStep::NeedsRefresh,
            Some(res) => ValidationStep::Done(res),
        }
    }

    /// Finish a validation for which `get_or_validate` asked a refresh and
    /// `apply_refresh` has run.  The verdict is final either way: a key id
    /// still absent from the (possibly unchanged) snapshot is `KeyNotFound`,
    /// and no second refresh is ever asked.
    pub fn validate_after_refresh(&mut self, token: &str, now: u64) -> (r: Result<
        Claims,
        AuthError,
    >)
        requires
            old(self).wf(),
        ensures
            final(self).wf(),
            final(self).snapshot() == old(self).snapshot(),
            final(self).expected_issuer() == old(self).expected_issuer(),
            claims_result_matches(
                r,
                spec_validate_after_refresh(
                    old(self).snapshot(),
                    token@,
                    old(self).expected_issuer(),
                    now,
                ),
            ),
            r matches Ok(c) ==> final(self).cache() == old(self).cache().insert(
                token@,
                (c@, c@.exp),
            ),
            r is Err ==> final(self).cache() == old(self).cache(),
    {
        match self.validate_uncached(token, now) {
            None => Err(AuthError::KeyNotFound),
            Some(res) => res,
        }
    }
}

} // verus!
