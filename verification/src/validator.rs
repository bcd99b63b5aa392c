//! The token validator: one resolved key, one token, one verdict.
//!
//! The signature work happens inside the trusted JWT boundary; the expiry
//! check (against a caller-supplied clock reading), the issuer equality, and
//! the presence of the subject and expiry claims are decided here, in
//! verified code, so each failure kind is distinguishable and exactly
//! specified.

use vstd::prelude::*;

use crate::claims::{Claims, ClaimsV};
use crate::errors::AuthError;
use crate::jwks::{SigningKey, SigningKeyV};
use crate::jwt::{
    header_alg_matches, jwt_header, jwt_payload, jwt_signature_accepted, jwt_signature_b64,
    make_verifier, rs_decode, rsa_components_accepted, VerifyFail,
};

verus! {

/// Whether the executable verdict `r` means the mathematical verdict `m`.
pub open spec fn claims_result_matches(
    r: Result<Claims, AuthError>,
    m: Result<ClaimsV, AuthError>,
) -> bool {
    match (r, m) {
        (Ok(c), Ok(cv)) => c@ == cv,
        (Err(e), Err(ev)) => e == ev,
        _ => false,
    }
}

/// The validator's verdict on `token` under the key `key`, the expected
/// issuer `issuer`, and the clock reading `now`, checked in the order the
/// underlying JWT crate checks them: key material, token shape, declared
/// algorithm against the key's, signature, payload shape; then, on the
/// decoded payload: exact issuer equality, presence of subject and expiry,
/// and expiry strictly in the future.
pub open spec fn spec_validate_with_key(
    key: SigningKeyV,
    token: Seq<char>,
    issuer: Seq<char>,
    now: u64,
) -> Result<ClaimsV, AuthError> {
    if !rsa_components_accepted(key.n, key.e) {
        Err(AuthError::InvalidSignature)
    } else if jwt_header(token) is None {
        Err(AuthError::MalformedToken)
    } else if !header_alg_matches(token, key.alg) {
        Err(AuthError::InvalidAlgorithm)
    } else if !jwt_signature_b64(token) {
        Err(AuthError::MalformedToken)
    } else if !jwt_signature_accepted(token, key.n, key.e) {
        Err(AuthError::InvalidSignature)
    } else if jwt_payload(token) is None {
        Err(AuthError::MalformedToken)
    } else {
        let p = jwt_payload(token).unwrap();
        if p.2 != Some(issuer) {
            Err(AuthError::InvalidIssuer)
        } else if p.0 is None || p.1 is None {
            Err(AuthError::MalformedToken)
        } else if p.1.unwrap() <= now {
            Err(AuthError::Expired)
        } else {
            Ok(ClaimsV { sub: p.0.unwrap(), exp: p.1.unwrap() })
        }
    }
}

/// Validate `token` with the already-resolved signing key `key`.
///
/// `now` is the caller's clock reading (seconds since the Unix epoch); the
/// verdict is a function of the arguments alone, and equals the
/// mathematical verdict for every input.
pub fn validate_with_key(key: &SigningKey, token: &str, issuer: &str, now: u64) -> (r: Result<
    Claims,
    AuthError,
>)
    ensures
        claims_result_matches(r, spec_validate_with_key(key@, token@, issuer@, now)),
{
    let verifier = match make_verifier(key.n.as_str(), key.e.as_str(), key.alg, issuer) {
        None => {
            return Err(AuthError::InvalidSignature);
        },
        Some(v) => v,
    };
    let (sub, exp, iss) = match rs_decode(&verifier, token) {
        Err(VerifyFail::Malformed) => {
            return Err(AuthError::MalformedToken);
        },
        Err(VerifyFail::WrongAlgorithm) => {
            return Err(AuthError::InvalidAlgorithm);
        },
        Err(VerifyFail::BadSignature) => {
            return Err(AuthError::InvalidSignature);
        },
        Err(VerifyFail::WrongIssuer) => {
            return Err(AuthError::InvalidIssuer);
        },
        Ok(c) => c,
    };
    let issuer_matches = match &iss {
        Some(s) => *s == issuer.to_owned(),
        None => false,
    };
    if !issuer_matches {
        return Err(AuthError::InvalidIssuer);
    }
    let sub = match sub {
        None => {
            return Err(AuthError::MalformedToken);
        },
        Some(s) => s,
    };
    let exp = match exp {
        None => {
            return Err(AuthError::MalformedToken);
        },
        Some(x) => x,
    };
    if exp <= now {
        return Err(AuthError::Expired);
    }
    Ok(Claims::new(sub, exp))
}

} // verus!
