//! Credential extraction, error collapse, and small value types.

use bearer_auth::alg::{rs_alg_from_str, RsAlg};
use bearer_auth::claims::Claims;
use bearer_auth::credential::{extract_bearer_token, extract_query_token};
use bearer_auth::errors::{problem_of, AuthError, Problem};

#[test]
fn bearer_token_is_extracted() {
    let r = extract_bearer_token(Some("Bearer abc.def.ghi"));
    assert_eq!(r.unwrap(), "abc.def.ghi");
}

#[test]
fn missing_header_is_missing_credential() {
    assert_eq!(extract_bearer_token(None), Err(AuthError::MissingCredential));
}

#[test]
fn header_without_bearer_prefix_is_rejected() {
    assert_eq!(
        extract_bearer_token(Some("Basic dXNlcjpwdw==")),
        Err(AuthError::MalformedCredential)
    );
    assert_eq!(
        extract_bearer_token(Some("bearer abc.def.ghi")),
        Err(AuthError::MalformedCredential)
    );
}

#[test]
fn bearer_with_empty_remainder_is_rejected() {
    assert_eq!(extract_bearer_token(Some("Bearer ")), Err(AuthError::MalformedCredential));
    assert_eq!(extract_bearer_token(Some("Bearer")), Err(AuthError::MalformedCredential));
    assert_eq!(extract_bearer_token(Some("")), Err(AuthError::MalformedCredential));
}

#[test]
fn query_token_is_extracted_and_percent_decoded() {
    let r = extract_query_token(Some("x=1&authorization=abc%20def&y=2"));
    assert_eq!(r.unwrap(), "abc def");
}

#[test]
fn repeated_query_parameter_resolves_to_last() {
    let r = extract_query_token(Some("authorization=first&authorization=second"));
    assert_eq!(r.unwrap(), "second");
}

#[test]
fn missing_query_parameter_is_missing_credential() {
    assert_eq!(extract_query_token(None), Err(AuthError::MissingCredential));
    assert_eq!(extract_query_token(Some("a=b&c=d")), Err(AuthError::MissingCredential));
}

#[test]
fn empty_query_parameter_is_malformed_credential() {
    assert_eq!(
        extract_query_token(Some("authorization=&x=1")),
        Err(AuthError::MalformedCredential)
    );
}

#[test]
fn failures_collapse_to_unauthorized() {
    let cases = [
        (AuthError::MissingCredential, "Missing authorization header"),
        (AuthError::MalformedCredential, "Invalid bearer token"),
        (AuthError::MalformedToken, "Invalid token"),
        (AuthError::KeyNotFound, "Invalid token"),
        (AuthError::InvalidSignature, "Invalid token"),
        (AuthError::InvalidIssuer, "Invalid token"),
        (AuthError::InvalidAlgorithm, "Invalid token"),
        (AuthError::Expired, "Invalid token"),
        (AuthError::UpstreamFetchFailure, "Invalid token"),
    ];
    for (e, detail) in cases {
        let p = problem_of(&e);
        assert_eq!(p, Problem::Unauthorized(detail.to_string()));
        assert_eq!(p.status_code(), 401);
    }
}

#[test]
fn problem_status_codes_and_texts() {
    let p = Problem::BadRequest("x".to_string());
    assert_eq!(p.status_code(), 400);
    assert_eq!(p.title(), "Bad Request");
    assert_eq!(p.slug(), "bad-request");
    assert_eq!(p.detail(), "x");
    assert_eq!(Problem::Conflict("c".to_string()).status_code(), 409);
    assert_eq!(Problem::Conflict("c".to_string()).title(), "Conflict");
    assert_eq!(Problem::Conflict("c".to_string()).slug(), "conflict");
    assert_eq!(Problem::InternalServerError("i".to_string()).status_code(), 500);
    assert_eq!(Problem::InternalServerError("i".to_string()).slug(), "internal-server-error");
    assert_eq!(Problem::NotFound("n".to_string()).status_code(), 404);
    assert_eq!(Problem::NotFound("n".to_string()).title(), "Not Found");
    assert_eq!(Problem::Unauthorized("u".to_string()).status_code(), 401);
    assert_eq!(Problem::Unauthorized("u".to_string()).title(), "Unauthorized");
    assert_eq!(Problem::Unauthorized("u".to_string()).slug(), "unauthorized");
}

#[test]
fn rs_alg_parsing() {
    assert_eq!(rs_alg_from_str("RS256"), Some(RsAlg::Rs256));
    assert_eq!(rs_alg_from_str("RS384"), Some(RsAlg::Rs384));
    assert_eq!(rs_alg_from_str("RS512"), Some(RsAlg::Rs512));
    assert_eq!(rs_alg_from_str("HS256"), None);
    assert_eq!(rs_alg_from_str("ES256"), None);
    assert_eq!(rs_alg_from_str(""), None);
    assert_eq!(rs_alg_from_str("rs256"), None);
}

#[test]
fn claims_carry_subject_and_expiry() {
    let c = Claims::new("user-42".to_string(), 1_700_003_600);
    assert_eq!(c.sub, "user-42");
    assert_eq!(c.expiry(), 1_700_003_600);
    let c2 = c.clone();
    assert_eq!(c2.into_subject(), "user-42");
}
