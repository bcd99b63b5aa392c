//! Parsing the provider's JWKS document into signing keys.
//!
//! The JSON work is jsonwebtoken's and serde_json's, behind trusted items;
//! which keys qualify for the snapshot (an id, a supported RSA algorithm,
//! RSA components) is decided by verified code, so that a non-RSA key is
//! rejected explicitly rather than silently accepted.

use vstd::prelude::*;

use crate::alg::RsAlg;
use crate::errors::AuthError;
use crate::jwks::{SigningKey, SigningKeyV};
use jsonwebtoken::jwk::AlgorithmParameters;
use jsonwebtoken::jwk::JwkSet;
use jsonwebtoken::jwk::KeyAlgorithm;
use jsonwebtoken::jwk::PublicKeyUse;

verus! {

#[verifier::external_type_specification]
#[verifier::external_body]
pub struct ExJwkSet(JwkSet);

/// The mathematical value of one key object of a JWKS document: its optional
/// key id, its optional algorithm narrowed to the RSA family, its RSA
/// modulus and exponent when its key type is RSA, and whether it declares
/// the signature use.
pub type JwkRecordV = (Option<Seq<char>>, Option<RsAlg>, Option<(Seq<char>, Seq<char>)>, bool);

/// What a fetched key-set document holds: `None` when serde_json rejects the
/// body as a JWKS (not JSON, no `keys` array, or a key object with an
/// unknown key type or algorithm name), otherwise one record per key object,
/// in document order.
pub uninterp spec fn jwks_document(body: Seq<char>) -> Option<Seq<JwkRecordV>>;

/// The records a parsed `JwkSet` value holds.
pub uninterp spec fn jwkset_records(s: JwkSet) -> Seq<JwkRecordV>;

/// One key object of a parsed key set, converted to plain values.
pub struct JwkRecord {
    /// The key id, if the key object has one.
    pub kid: Option<String>,
    /// The declared algorithm, `None` when absent or outside the RSA family.
    pub alg: Option<RsAlg>,
    /// The base64url RSA modulus and exponent, when the key type is RSA.
    pub rsa: Option<(String, String)>,
    /// Whether the key declares the signature (`sig`) use.
    pub sig_use: bool,
}

/// The mathematical value of a `JwkRecord`.
pub open spec fn record_v(r: JwkRecord) -> JwkRecordV {
    (r.kid.deep_view(), r.alg, r.rsa.deep_view(), r.sig_use)
}

/// Relies on serde_json's `from_str` for jsonwebtoken's `JwkSet`: the body
/// must be a JSON object with a `keys` array whose every element is a JWK
/// with a known key type; anything else is rejected whole.
#[verifier::external_body]
fn parse_jwk_set(body: &str) -> (r: Option<JwkSet>)
    ensures
        r is Some <==> jwks_document(body@) is Some,
        r matches Some(s) ==> jwks_document(body@) == Some(jwkset_records(s)),
{
    serde_json::from_str::<JwkSet>(body).ok()
}

/// Relies on the `keys` field of jsonwebtoken's `JwkSet` being the parsed
/// key objects in document order.
#[verifier::external_body]
fn jwk_count(s: &JwkSet) -> (r: usize)
    ensures
        r == jwkset_records(*s).len(),
{
    s.keys.len()
}

/// Relies on the field layout of jsonwebtoken's `Jwk`: the key id and
/// algorithm under its common parameters, and the RSA modulus and exponent
/// under its RSA algorithm parameters.  The algorithm enum is narrowed to
/// the RSA family, one arm per supported variant.
#[verifier::external_body]
fn jwk_record_at(s: &JwkSet, i: usize) -> (r: JwkRecord)
    requires
        i < jwkset_records(*s).len(),
    ensures
        record_v(r) == jwkset_records(*s)[i as int],
{
    let k = &s.keys[i];
    let alg = match k.common.key_algorithm {
        Some(KeyAlgorithm::RS256) => Some(RsAlg::Rs256),
        Some(KeyAlgorithm::RS384) => Some(RsAlg::Rs384),
        Some(KeyAlgorithm::RS512) => Some(RsAlg::Rs512),
        _ => None,
    };
    let rsa = match &k.algorithm {
        AlgorithmParameters::RSA(p) => Some((p.n.clone(), p.e.clone())),
        _ => None,
    };
    let sig_use = matches!(k.common.public_key_use, Some(PublicKeyUse::Signature));
    JwkRecord { kid: k.common.key_id.clone(), alg, rsa, sig_use }
}

/// The signing key a record qualifies as: it must carry a key id, a
/// supported RSA-family algorithm, and RSA components.  Anything else is
/// rejected: it never enters a snapshot, so its id resolves to no key.
pub open spec fn accepted_key(rec: JwkRecordV) -> Option<SigningKeyV> {
    match rec {
        (Some(kid), Some(alg), Some(components), sig_use) => Some(
            SigningKeyV { kid, alg, n: components.0, e: components.1, sig_use },
        ),
        _ => None,
    }
}

/// The signing keys of a document's records, in document order.
pub open spec fn accepted_keys(records: Seq<JwkRecordV>) -> Seq<SigningKeyV>
    decreases records.len(),
{
    if records.len() == 0 {
        Seq::empty()
    } else {
        let rest = accepted_keys(records.drop_last());
        match accepted_key(records.last()) {
            Some(k) => rest.push(k),
            None => rest,
        }
    }
}

/// Parse a fetched key-set document into the signing keys it offers.
/// Rejecting the document is an upstream failure; a key object that does not
/// qualify (no id, non-RSA, unsupported algorithm) is dropped from the
/// result, which is the explicit rejection of non-RSA key material.
pub fn parse_jwks(body: &str) -> (r: Result<Vec<SigningKey>, AuthError>)
    ensures
        r is Ok <==> jwks_document(body@) is Some,
        r matches Ok(v) ==> (jwks_document(body@) matches Some(d) && v.deep_view()
            == accepted_keys(d)),
        r matches Err(e) ==> e == AuthError::UpstreamFetchFailure,
{
    let set = match parse_jwk_set(body) {
        Some(s) => s,
        None => {
            return Err(AuthError::UpstreamFetchFailure);
        },
    };
    let ghost d = jwkset_records(set);
    let n = jwk_count(&set);
    let mut out: Vec<SigningKey> = Vec::new();
    for i in 0..n
        invariant
            n == d.len(),
            d == jwkset_records(set),
            jwks_document(body@) == Some(d),
            out.deep_view() == accepted_keys(d.take(i as int)),
    {
        let rec = jwk_record_at(&set, i);
        let ghost prev = out.deep_view();
        match (rec.kid, rec.alg, rec.rsa) {
            (Some(kid), Some(alg), Some(components)) => {
                let key = SigningKey { kid, alg, n: components.0, e: components.1, sig_use: rec.sig_use };
                proof {
                    assert(accepted_key(d[i as int]) == Some(key@));
                }
                out.push(key);
                proof {
                    assert(out.deep_view() =~= prev.push(key@));
                }
            },
            _ => {
                proof {
                    assert(accepted_key(d[i as int]) is None);
                }
            },
        }
        proof {
            assert(d.take(i + 1).drop_last() =~= d.take(i as int));
            assert(d.take(i + 1).last() == d[i as int]);
        }
    }
    proof {
        assert(d.take(n as int) =~= d);
    }
    Ok(out)
}

} // verus!
