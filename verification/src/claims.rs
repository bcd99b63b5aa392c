//! The claims extracted from a verified token.  A `Claims` value exists only
//! after the signature, algorithm and issuer checks have passed.

use vstd::prelude::*;

verus! {

/// The mathematical value of a `Claims`.
pub struct ClaimsV {
    pub sub: Seq<char>,
    pub exp: u64,
}

/// The verified claims of a token: the subject identifier and the absolute
/// expiry (seconds since the Unix epoch).
#[derive(Debug)]
pub struct Claims {
    /// The subject identifier: the one artifact collaborators may see.
    pub sub: String,
    exp: u64,
}

impl View for Claims {
    type V = ClaimsV;

    closed spec fn view(&self) -> ClaimsV {
        ClaimsV { sub: self.sub@, exp: self.exp }
    }
}

impl Clone for Claims {
    fn clone(&self) -> (r: Self)
        ensures
            r@ == self@,
    {
        Claims { sub: self.sub.clone(), exp: self.exp }
    }
}

impl Claims {
    /// Assemble claims from a verified subject and expiry.
    pub fn new(sub: String, exp: u64) -> (r: Claims)
        ensures
            r@ == (ClaimsV { sub: sub@, exp }),
    {
        Claims { sub, exp }
    }

    /// Surrender the claims for the one artifact collaborators may see:
    /// the subject identifier.
    pub fn into_subject(self) -> (r: String)
        ensures
            r@ == self@.sub,
    {
        self.sub
    }

    /// The expiry claim, in seconds since the Unix epoch.
    pub fn expiry(&self) -> (r: u64)
        ensures
            r == self@.exp,
    {
        self.exp
    }
}

} // verus!
