//! The per-request authentication interceptor.
//!
//! Each request moves from unauthenticated, through token extraction, to
//! validated or rejected; rejection is terminal and collapses every failure
//! kind to a generic unauthorized problem, leaking no internal detail.  The
//! verified subject string is the one artifact handed downstream — never raw
//! tokens, keys or full claim sets — and it belongs to this request alone,
//! not to any shared slot.

use vstd::prelude::*;

use crate::credential::{
    extract_bearer_token, extract_query_token, spec_bearer_token, spec_query_token,
};
use crate::errors::{is_problem_of, problem_of, AuthError, Problem};
use crate::service::{spec_validate_after_refresh, spec_validate_uncached, AuthService, ValidationStep};
use crate::token_cache::{cache_state, CacheState};
use vstd::string::StringSliceAdditionalSpecFns;

verus! {

/// The marker for the bearer security scheme that the service's API
/// documentation advertises; the interceptor is its implementation.
pub struct BearerAuth;

/// Where one request's authentication stands after `begin_request`.
pub enum InterceptStep {
    /// Terminal: the verified subject, or the boundary problem the request
    /// is answered with.  Neither carries the token or any key material.
    Settled(Result<String, Problem>),
    /// The token was extracted but its key id needs a key-set refresh: fetch
    /// the document, hand it to `apply_refresh`, then call `finish_request`
    /// with this token.  The carried string is the extracted token.
    NeedsRefresh(String),
}

/// How `begin_request`'s outcome relates to the extracted token `t`: the
/// read-through verdict of the service's caches, with every failure
/// collapsed to the boundary problem.
pub open spec fn step_reflects_token(
    r: InterceptStep,
    pre: AuthService,
    post: AuthService,
    t: Seq<char>,
    now: u64,
) -> bool {
    if cache_state(pre.cache(), t, now) == CacheState::Fresh {
        post.cache() == pre.cache() && (r matches InterceptStep::Settled(res) && (
        res matches Ok(s) && s@ == pre.cache()[t].0.sub))
    } else {
        match spec_validate_uncached(pre.snapshot(), t, pre.expected_issuer(), now) {
            None => post.cache() == pre.cache() && (r matches InterceptStep::NeedsRefresh(tok)
                && tok@ == t),
            Some(m) => match m {
                Ok(c) => post.cache() == pre.cache().insert(t, (c, c.exp)) && (
                r matches InterceptStep::Settled(res) && (res matches Ok(s) && s@ == c.sub)),
                Err(e) => post.cache() == pre.cache() && (r matches InterceptStep::Settled(res)
                    && (res matches Err(p) && is_problem_of(p, e))),
            },
        }
    }
}

/// Authenticate one request from its `Authorization` header value.
///
/// A missing or malformed credential is rejected here, before any cache
/// lookup or network call, and the service is left untouched.  Otherwise the
/// verdict is the token cache's, and a key id missing from the snapshot asks
/// the caller for exactly one refresh.
pub fn begin_request(svc: &mut AuthService, header: Option<&str>, now: u64) -> (r: InterceptStep)
    requires
        old(svc).wf(),
    ensures
        final(svc).wf(),
        final(svc).snapshot() == old(svc).snapshot(),
        final(svc).expected_issuer() == old(svc).expected_issuer(),
        header is None ==> (final(svc).cache() == old(svc).cache() && (
        r matches InterceptStep::Settled(res) && (res matches Err(p) && is_problem_of(
            p,
            AuthError::MissingCredential,
        )))),
        header matches Some(h) ==> if spec_bearer_token(h.spec_bytes()) is None {
            final(svc).cache() == old(svc).cache() && (r matches InterceptStep::Settled(res) && (
            res matches Err(p) && is_problem_of(p, AuthError::MalformedCredential)))
        } else {
            step_reflects_token(r, *old(svc), *final(svc), h@.subrange(7, h@.len() as int), now)
        },
{
    let token = match extract_bearer_token(header) {
        Err(e) => {
            return InterceptStep::Settled(Err(problem_of(&e)));
        },
        Ok(t) => t,
    };
    authenticate_token(svc, token, now)
}

/// Authenticate one request from its query string, for transports that
/// cannot carry an `Authorization` header.
pub fn begin_request_from_query(svc: &mut AuthService, query: Option<&str>, now: u64) -> (r:
    InterceptStep)
    requires
        old(svc).wf(),
    ensures
        final(svc).wf(),
        final(svc).snapshot() == old(svc).snapshot(),
        final(svc).expected_issuer() == old(svc).expected_issuer(),
        query is None ==> (final(svc).cache() == old(svc).cache() && (
        r matches InterceptStep::Settled(res) && (res matches Err(p) && is_problem_of(
            p,
            AuthError::MissingCredential,
        )))),
        query matches Some(q) ==> match spec_query_token(q@) {
            None => final(svc).cache() == old(svc).cache() && (
            r matches InterceptStep::Settled(res) && (res matches Err(p) && is_problem_of(
                p,
                AuthError::MissingCredential,
            ))),
            Some(t) => if t.len() == 0 {
                final(svc).cache() == old(svc).cache() && (
                r matches InterceptStep::Settled(res) && (res matches Err(p) && is_problem_of(
                    p,
                    AuthError::MalformedCredential,
                )))
            } else {
                step_reflects_token(r, *old(svc), *final(svc), t, now)
            },
        },
{
    let token = match extract_query_token(query) {
        Err(e) => {
            return InterceptStep::Settled(Err(problem_of(&e)));
        },
        Ok(t) => t,
    };
    authenticate_token(svc, token.as_str(), now)
}

/// The shared tail of both transports: run the extracted token through the
/// read-through cache and collapse any failure at the boundary.
fn authenticate_token(svc: &mut AuthService, token: &str, now: u64) -> (r: InterceptStep)
    requires
        old(svc).wf(),
    ensures
        final(svc).wf(),
        final(svc).snapshot() == old(svc).snapshot(),
        final(svc).expected_issuer() == old(svc).expected_issuer(),
        step_reflects_token(r, *old(svc), *final(svc), token@, now),
{
    match svc.get_or_validate(token, now) {
        ValidationStep::Done(Ok(c)) => InterceptStep::Settled(Ok(c.into_subject())),
        ValidationStep::Done(Err(e)) => InterceptStep::Settled(Err(problem_of(&e))),
        ValidationStep::NeedsRefresh => InterceptStep::NeedsRefresh(token.to_owned()),
    }
}

/// Finish a request for which `begin_request` asked a refresh and
/// `apply_refresh` has run.  The verdict is terminal either way; no second
/// refresh is ever asked for one request.
pub fn finish_request(svc: &mut AuthService, token: &str, now: u64) -> (r: Result<String, Problem>)
    requires
        old(svc).wf(),
    ensures
        final(svc).wf(),
        final(svc).snapshot() == old(svc).snapshot(),
        final(svc).expected_issuer() == old(svc).expected_issuer(),
        match spec_validate_after_refresh(
            old(svc).snapshot(),
            token@,
            old(svc).expected_issuer(),
            now,
        ) {
            Ok(c) => final(svc).cache() == old(svc).cache().insert(token@, (c, c.exp)) && (
            r matches Ok(s) && s@ == c.sub),
            Err(e) => final(svc).cache() == old(svc).cache() && (r matches Err(p)
                && is_problem_of(p, e)),
        },
{
    match svc.validate_after_refresh(token, now) {
        Ok(c) => Ok(c.into_subject()),
        Err(e) => Err(problem_of(&e)),
    }
}

} // verus!
