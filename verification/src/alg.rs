//! The RSA-family signing algorithms this subsystem accepts.  Keys or token
//! headers declaring anything else are rejected explicitly.

use vstd::prelude::*;

verus! {

/// An RSA-family JWS algorithm.  These are the only algorithms a signing
/// key may declare; a key set entry with any other algorithm never enters
/// the snapshot.
#[derive(Clone, Copy, Debug, PartialEq, Eq, Structural)]
pub enum RsAlg {
    Rs256,
    Rs384,
    Rs512,
}

/// Which algorithm a JWK `alg` string names, if it names a supported one.
pub open spec fn spec_rs_alg(s: Seq<char>) -> Option<RsAlg> {
    if s == "RS256"@ {
        Some(RsAlg::Rs256)
    } else if s == "RS384"@ {
        Some(RsAlg::Rs384)
    } else if s == "RS512"@ {
        Some(RsAlg::Rs512)
    } else {
        None
    }
}

/// Parse a JWK `alg` string; anything outside the RSA family is `None`.
pub fn rs_alg_from_str(s: &str) -> (r: Option<RsAlg>)
    ensures
        r == spec_rs_alg(s@),
{
    let owned = s.to_owned();
    if owned == "RS256".to_owned() {
        Some(RsAlg::Rs256)
    } else if owned == "RS384".to_owned() {
        Some(RsAlg::Rs384)
    } else if owned == "RS512".to_owned() {
        Some(RsAlg::Rs512)
    } else {
        None
    }
}

} // verus!
