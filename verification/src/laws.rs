//! The subsystem's laws, proved once over the models that the executable
//! functions' contracts are phrased in.

use vstd::prelude::*;

use crate::claims::ClaimsV;
use crate::errors::AuthError;
use crate::jwks::{kid_map, lemma_kid_map_contains, SigningKeyV};
use crate::jwks_parse::{accepted_keys, JwkRecordV};
use crate::jwt::{
    header_alg_matches, jwt_header, jwt_payload, jwt_signature_accepted, jwt_signature_b64,
    rsa_components_accepted,
};
use crate::service::{spec_validate_after_refresh, spec_validate_uncached};
use crate::token_cache::{cache_state, CacheState};
use crate::validator::spec_validate_with_key;

verus! {

/// A token that is well-formed, signed by the key, issued by the expected
/// issuer and not yet expired validates to exactly the claims its payload
/// carries: the subject of the verdict is the token's own subject claim.
pub proof fn lemma_valid_token_yields_its_subject(
    key: SigningKeyV,
    token: Seq<char>,
    issuer: Seq<char>,
    now: u64,
)
    requires
        rsa_components_accepted(key.n, key.e),
        header_alg_matches(token, key.alg),
        jwt_signature_b64(token),
        jwt_signature_accepted(token, key.n, key.e),
        jwt_payload(token) matches Some(p) && p.0 is Some && p.1 is Some && p.2 == Some(issuer)
            && p.1.unwrap() > now,
    ensures
        spec_validate_with_key(key, token, issuer, now) == Ok::<ClaimsV, AuthError>(
            ClaimsV {
                sub: jwt_payload(token).unwrap().0.unwrap(),
                exp: jwt_payload(token).unwrap().1.unwrap(),
            },
        ),
{
}

/// Once a token has validated to claims `c`, the cache entry that the
/// validation inserted answers every later read before the expiry: the state
/// is fresh and the stored claims are `c`, so `get_or_validate` returns them
/// without touching the validator, the key set, or the network.
pub proof fn lemma_repeat_call_served_from_cache(
    cache: Map<Seq<char>, (ClaimsV, u64)>,
    token: Seq<char>,
    c: ClaimsV,
    later: u64,
)
    requires
        later < c.exp,
    ensures
        cache_state(cache.insert(token, (c, c.exp)), token, later) == CacheState::Fresh,
        cache.insert(token, (c, c.exp))[token].0 == c,
{
}

/// A token whose expiry claim is not in the future fails with `Expired`
/// even when its signature (and everything else about it) is valid.
pub proof fn lemma_expired_despite_valid_signature(
    key: SigningKeyV,
    token: Seq<char>,
    issuer: Seq<char>,
    now: u64,
)
    requires
        rsa_components_accepted(key.n, key.e),
        header_alg_matches(token, key.alg),
        jwt_signature_b64(token),
        jwt_signature_accepted(token, key.n, key.e),
        jwt_payload(token) matches Some(p) && p.0 is Some && p.1 is Some && p.2 == Some(issuer)
            && p.1.unwrap() <= now,
    ensures
        spec_validate_with_key(key, token, issuer, now) == Err::<ClaimsV, AuthError>(
            AuthError::Expired,
        ),
{
}

/// One refresh settles a key miss.  When validation asks for a refresh (the
/// token's key id is unresolved) and the id is still absent from the
/// snapshot the refresh produced, the after-refresh verdict is
/// `KeyNotFound` — a verdict, not another refresh: the flow asks for at most
/// one refresh attempt per validation.
pub proof fn lemma_one_refresh_then_key_not_found(
    snap: Map<Seq<char>, SigningKeyV>,
    refreshed: Map<Seq<char>, SigningKeyV>,
    token: Seq<char>,
    issuer: Seq<char>,
    now: u64,
)
    requires
        spec_validate_uncached(snap, token, issuer, now) is None,
        jwt_header(token) matches Some(h) && (h.0 matches Some(kid)
            && !refreshed.contains_key(kid)),
    ensures
        spec_validate_after_refresh(refreshed, token, issuer, now) == Err::<ClaimsV, AuthError>(
            AuthError::KeyNotFound,
        ),
{
}

/// A refresh replaces the snapshot wholesale, never merges.  The snapshot a
/// document installs resolves a key id exactly when one of the document's
/// accepted keys carries it — so a key id present only in the previous
/// snapshot is no longer resolvable.
pub proof fn lemma_refresh_is_full_replace(records: Seq<JwkRecordV>, kid: Seq<char>)
    ensures
        kid_map(accepted_keys(records)).contains_key(kid) <==> exists|i: int|
            0 <= i < accepted_keys(records).len() && #[trigger] accepted_keys(records)[i].kid
                == kid,
{
    lemma_kid_map_contains(accepted_keys(records), kid);
}

/// Concurrent validations of one uncached token never corrupt the cache.
/// Validation is a function of the token, the snapshot, the issuer and the
/// clock, so simultaneous callers that validated the same token compute the
/// same entry; however many of their inserts land, and in whatever order
/// around other work, the final cache holds exactly the mapping with that
/// one entry for the token.
pub proof fn lemma_duplicate_insert_single_entry(
    cache: Map<Seq<char>, (ClaimsV, u64)>,
    token: Seq<char>,
    c: ClaimsV,
)
    ensures
        cache.insert(token, (c, c.exp)).insert(token, (c, c.exp)) =~= cache.insert(
            token,
            (c, c.exp),
        ),
        cache.insert(token, (c, c.exp))[token] == (c, c.exp),
{
}

/// Inserts for distinct tokens commute: one request's cache fill cannot
/// disturb another's, whichever lands first.
pub proof fn lemma_distinct_inserts_commute(
    cache: Map<Seq<char>, (ClaimsV, u64)>,
    token1: Seq<char>,
    v1: (ClaimsV, u64),
    token2: Seq<char>,
    v2: (ClaimsV, u64),
)
    requires
        token1 != token2,
    ensures
        cache.insert(token1, v1).insert(token2, v2) =~= cache.insert(token2, v2).insert(
            token1,
            v1,
        ),
{
}

} // verus!
