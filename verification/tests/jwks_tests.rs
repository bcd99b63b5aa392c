//! Key-set parsing and snapshot semantics.

use bearer_auth::alg::RsAlg;
use bearer_auth::errors::AuthError;
use bearer_auth::jwks::{JwksSnapshot, SigningKey};
use bearer_auth::jwks_parse::parse_jwks;

fn rsa_jwk(kid: &str, alg: &str, n: &str, e: &str) -> String {
    format!(
        r#"{{"kty":"RSA","alg":"{}","use":"sig","kid":"{}","n":"{}","e":"{}"}}"#,
        alg, kid, n, e
    )
}

#[test]
fn jwks_document_is_parsed() {
    let body = format!(r#"{{"keys":[{}]}}"#, rsa_jwk("k1", "RS256", "bW9k", "AQAB"));
    let keys = parse_jwks(&body).unwrap();
    assert_eq!(keys.len(), 1);
    assert_eq!(keys[0].kid, "k1");
    assert_eq!(keys[0].alg, RsAlg::Rs256);
    assert_eq!(keys[0].n, "bW9k");
    assert_eq!(keys[0].e, "AQAB");
    assert!(keys[0].sig_use);
}

#[test]
fn non_rsa_and_incomplete_keys_are_rejected() {
    // An EC key, an RSA key without a kid, and an RSA key with a non-RSA
    // algorithm name never become signing keys.
    let body = format!(
        r#"{{"keys":[{},{},{},{}]}}"#,
        r#"{"kty":"EC","crv":"P-256","x":"AA","y":"AA","kid":"ec1"}"#,
        r#"{"kty":"RSA","alg":"RS256","n":"bW9k","e":"AQAB"}"#,
        r#"{"kty":"RSA","alg":"HS256","kid":"k9","n":"bW9k","e":"AQAB"}"#,
        rsa_jwk("k2", "RS384", "bW9k", "AQAB"),
    );
    let keys = parse_jwks(&body).unwrap();
    assert_eq!(keys.len(), 1);
    assert_eq!(keys[0].kid, "k2");
    assert_eq!(keys[0].alg, RsAlg::Rs384);
}

#[test]
fn unparseable_document_is_upstream_failure() {
    assert_eq!(parse_jwks("not json").unwrap_err(), AuthError::UpstreamFetchFailure);
    assert_eq!(parse_jwks(r#"{"nokeys":[]}"#).unwrap_err(), AuthError::UpstreamFetchFailure);
}

#[test]
fn snapshot_lookup_finds_exactly_the_present_kids() {
    let keys = vec![
        SigningKey {
            kid: "k1".to_string(),
            alg: RsAlg::Rs256,
            n: "n1".to_string(),
            e: "AQAB".to_string(),
            sig_use: true,
        },
        SigningKey {
            kid: "k2".to_string(),
            alg: RsAlg::Rs512,
            n: "n2".to_string(),
            e: "AQAB".to_string(),
            sig_use: false,
        },
    ];
    let snap = JwksSnapshot::from_keys(keys);
    let k1 = snap.get_key("k1").unwrap();
    assert_eq!(k1.n, "n1");
    assert_eq!(k1.alg, RsAlg::Rs256);
    let k2 = snap.get_key("k2").unwrap();
    assert_eq!(k2.n, "n2");
    assert!(snap.get_key("k3").is_none());
    assert!(JwksSnapshot::empty().get_key("k1").is_none());
}

#[test]
fn repeated_kid_resolves_to_last_key() {
    let keys = vec![
        SigningKey {
            kid: "k1".to_string(),
            alg: RsAlg::Rs256,
            n: "old".to_string(),
            e: "AQAB".to_string(),
            sig_use: true,
        },
        SigningKey {
            kid: "k1".to_string(),
            alg: RsAlg::Rs256,
            n: "new".to_string(),
            e: "AQAB".to_string(),
            sig_use: true,
        },
    ];
    let snap = JwksSnapshot::from_keys(keys);
    assert_eq!(snap.get_key("k1").unwrap().n, "new");
}
