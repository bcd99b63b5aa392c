//! The trusted boundary around jsonwebtoken's JWT decoding.
//!
//! What a token's parts decode to, and whether an RSA signature verifies,
//! cannot be restated here in a few lines; those outcomes are given names
//! (uninterpreted spec functions), and the wrappers below promise that the
//! outside calls return exactly what the names denote, in the order the
//! crate's source checks them.  Everything downstream (key resolution,
//! expiry, issuer and claim-presence decisions) is verified code.

use vstd::prelude::*;

use crate::alg::RsAlg;
use jsonwebtoken::Algorithm;
use jsonwebtoken::DecodingKey;
use jsonwebtoken::Validation;
use jsonwebtoken::errors::ErrorKind;

verus! {

#[verifier::external_type_specification]
#[verifier::external_body]
pub struct ExDecodingKey(DecodingKey);

#[verifier::external_type_specification]
#[verifier::external_body]
pub struct ExValidation(Validation);

/// What `jsonwebtoken::decode_header` extracts from a token: `None` when the
/// token is not three dot-separated parts whose first part base64url-decodes
/// to a JSON header; otherwise the header's optional `kid`, and its `alg`
/// (`None` when the algorithm is outside the RSA family).
pub uninterp spec fn jwt_header(token: Seq<char>) -> Option<(Option<Seq<char>>, Option<RsAlg>)>;

/// Whether the token's third (signature) part is valid base64url, as
/// jsonwebtoken's `b64_decode` of that part decides.
pub uninterp spec fn jwt_signature_b64(token: Seq<char>) -> bool;

/// Whether the token's signature verifies over its first two parts under the
/// RSA public key with the given base64url modulus and exponent and the
/// token's own header algorithm, as ring's RSA verification (reached through
/// jsonwebtoken's `crypto::verify`) decides.
pub uninterp spec fn jwt_signature_accepted(
    token: Seq<char>,
    modulus: Seq<char>,
    exponent: Seq<char>,
) -> bool;

/// What the token's second (payload) part decodes to: `None` when it is not
/// base64url for a JSON object (as jsonwebtoken's claims decoding decides);
/// otherwise the payload's `sub`, `exp` and `iss` claims, each `None` when
/// absent or not a string (`sub`, `iss`) or not a 64-bit unsigned number
/// (`exp`), as serde_json reads them off the decoded object.
pub uninterp spec fn jwt_payload(
    token: Seq<char>,
) -> Option<(Option<Seq<char>>, Option<u64>, Option<Seq<char>>)>;

/// Whether `DecodingKey::from_rsa_components` accepts the pair, i.e. whether
/// both strings are valid base64url.
pub uninterp spec fn rsa_components_accepted(modulus: Seq<char>, exponent: Seq<char>) -> bool;

/// Whether the token's header parses and declares exactly the algorithm `alg`.
pub open spec fn header_alg_matches(token: Seq<char>, alg: RsAlg) -> bool {
    jwt_header(token) matches Some(h) && h.1 == Some(alg)
}

/// Whether everything up to and including the signature check passes for the
/// token under the given key components and algorithm.
pub open spec fn signature_path_ok(
    token: Seq<char>,
    modulus: Seq<char>,
    exponent: Seq<char>,
    alg: RsAlg,
) -> bool {
    header_alg_matches(token, alg) && jwt_signature_b64(token) && jwt_signature_accepted(
        token,
        modulus,
        exponent,
    )
}

/// What a token's header declares, converted to plain values.
pub struct TokenHeader {
    /// The key id selecting the verification key, if the header has one.
    pub kid: Option<String>,
    /// The declared algorithm, `None` when outside the RSA family.
    pub alg: Option<RsAlg>,
}

/// Relies on `jsonwebtoken::decode_header`: it splits the token into three
/// dot-separated parts and base64url-decodes the first into a JSON header,
/// erring exactly when that fails.  The header's algorithm enum is narrowed
/// to the RSA family here, one arm per supported variant.
#[verifier::external_body]
pub(crate) fn decode_token_header(token: &str) -> (r: Option<TokenHeader>)
    ensures
        r is Some <==> jwt_header(token@) is Some,
        r matches Some(h) ==> jwt_header(token@) == Some((h.kid.deep_view(), h.alg)),
{
    match jsonwebtoken::decode_header(token) {
        Ok(h) => Some(TokenHeader {
            kid: h.kid,
            alg: match h.alg {
                Algorithm::RS256 => Some(RsAlg::Rs256),
                Algorithm::RS384 => Some(RsAlg::Rs384),
                Algorithm::RS512 => Some(RsAlg::Rs512),
                _ => None,
            },
        }),
        Err(_) => None,
    }
}

/// How `rs_decode` reports a rejected token.
#[derive(Clone, Copy, Debug, PartialEq, Eq, Structural)]
pub enum VerifyFail {
    /// A part of the token failed to decode (shape, base64, or JSON).
    Malformed,
    /// The header's algorithm is not the verifier's.
    WrongAlgorithm,
    /// The signature did not verify under the verifier's key.
    BadSignature,
    /// The payload's `iss` claim is present and not the expected issuer.
    WrongIssuer,
}

/// An RSA verifier bound to one key and one expected issuer.  The plain
/// fields record what the opaque `key` and `validation` were built from;
/// `make_verifier` is the only constructor, so the contracts of `rs_decode`
/// may speak of the plain fields.
pub struct RsaVerifier {
    pub(crate) modulus: String,
    pub(crate) exponent: String,
    pub(crate) alg: RsAlg,
    pub(crate) issuer: String,
    pub(crate) key: DecodingKey,
    pub(crate) validation: Validation,
}

/// Relies on `jsonwebtoken::DecodingKey::from_rsa_components`, which accepts
/// exactly base64url modulus/exponent strings, and on `Validation::new` and
/// `Validation::set_issuer`.  Expiry and audience validation are switched
/// off (expiry is decided by verified code against a caller-supplied clock),
/// and no claim's presence is required of the crate; presence is decided by
/// verified code too.
#[verifier::external_body]
pub(crate) fn make_verifier(modulus: &str, exponent: &str, alg: RsAlg, issuer: &str) -> (r:
    Option<RsaVerifier>)
    ensures
        r is Some <==> rsa_components_accepted(modulus@, exponent@),
        r matches Some(v) ==> v.modulus@ == modulus@ && v.exponent@ == exponent@ && v.alg == alg
            && v.issuer@ == issuer@,
{
    let algorithm = match alg {
        RsAlg::Rs256 => Algorithm::RS256,
        RsAlg::Rs384 => Algorithm::RS384,
        RsAlg::Rs512 => Algorithm::RS512,
    };
    let key = match DecodingKey::from_rsa_components(modulus, exponent) {
        Ok(k) => k,
        Err(_) => return None,
    };
    let mut validation = Validation::new(algorithm);
    validation.set_issuer(&[issuer]);
    validation.validate_exp = false;
    validation.validate_aud = false;
    validation.required_spec_claims = std::collections::HashSet::new();
    Some(RsaVerifier { modulus: modulus.to_owned(), exponent: exponent.to_owned(), alg, issuer: issuer.to_owned(), key, validation })
}

/// Relies on `jsonwebtoken::decode`, which checks the token in this order:
/// shape and header decode, header algorithm against the verifier's, the
/// signature (its base64, then the RSA verification), the payload decode,
/// and finally a present string `iss` claim against the expected issuer.
/// The error kind is narrowed to `VerifyFail`, one arm per relied-on kind;
/// the `sub`, `exp` and `iss` claims are read off the decoded payload.  An
/// `iss` claim that is not a single string is reported here as whatever the
/// crate decided (`WrongIssuer` or success), so issuer equality is decided
/// again by verified code on the returned claim.
#[verifier::external_body]
pub(crate) fn rs_decode(v: &RsaVerifier, token: &str) -> (r: Result<
    (Option<String>, Option<u64>, Option<String>),
    VerifyFail,
>)
    ensures
        (r matches Err(f) && f == VerifyFail::Malformed) <==> (jwt_header(token@) is None || (
        header_alg_matches(token@, v.alg) && !jwt_signature_b64(token@)) || (signature_path_ok(
            token@,
            v.modulus@,
            v.exponent@,
            v.alg,
        ) && jwt_payload(token@) is None)),
        (r matches Err(f) && f == VerifyFail::WrongAlgorithm) <==> (jwt_header(token@) matches Some(
            h,
        ) && h.1 != Some(v.alg)),
        (r matches Err(f) && f == VerifyFail::BadSignature) <==> (header_alg_matches(
            token@,
            v.alg,
        ) && jwt_signature_b64(token@) && !jwt_signature_accepted(token@, v.modulus@, v.exponent@)),
        (r matches Err(f) && f == VerifyFail::WrongIssuer) ==> (signature_path_ok(
            token@,
            v.modulus@,
            v.exponent@,
            v.alg,
        ) && (jwt_payload(token@) matches Some(p) && p.2 != Some(v.issuer@))),
        r matches Ok(c) ==> (signature_path_ok(token@, v.modulus@, v.exponent@, v.alg)
            && jwt_payload(token@) == Some((c.0.deep_view(), c.1, c.2.deep_view()))),
        (signature_path_ok(token@, v.modulus@, v.exponent@, v.alg) && (jwt_payload(
            token@,
        ) matches Some(p) && p.2 == Some(v.issuer@))) ==> r is Ok,
{
    let data = match jsonwebtoken::decode::<serde_json::Value>(token, &v.key, &v.validation) {
        Ok(d) => d,
        Err(e) => return Err(match e.kind() {
            ErrorKind::InvalidAlgorithm => VerifyFail::WrongAlgorithm,
            ErrorKind::InvalidSignature => VerifyFail::BadSignature,
            ErrorKind::InvalidIssuer => VerifyFail::WrongIssuer,
            _ => VerifyFail::Malformed,
        }),
    };
    let sub = data.claims.get("sub").and_then(|c| c.as_str()).map(|s| s.to_owned());
    let exp = data.claims.get("exp").and_then(|c| c.as_u64());
    let iss = data.claims.get("iss").and_then(|c| c.as_str()).map(|s| s.to_owned());
    Ok((sub, exp, iss))
}

} // verus!
