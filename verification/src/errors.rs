//! The error taxonomy of the authentication subsystem, and the generic
//! problem type that the service boundary answers with.

use vstd::prelude::*;

verus! {

/// Why authenticating one request failed.  Every failure is scoped to the
/// single request that triggered it; none is fatal to the process.
#[derive(Clone, Copy, Debug, PartialEq, Eq, Structural)]
pub enum AuthError {
    /// No credential was presented on the transport.
    MissingCredential,
    /// A credential was presented but is not `Bearer <token>` with a
    /// non-empty remainder (or, for the query form, the parameter is empty).
    MalformedCredential,
    /// The token is not a well-formed JWT, or its header lacks a `kid`,
    /// or its payload lacks the subject or expiry claim.
    MalformedToken,
    /// The token's `kid` is absent from the key set, even after a refresh
    /// (rotated out, wrong `kid`, or the provider was unreachable).
    KeyNotFound,
    /// The token's signature does not verify under the resolved key.
    InvalidSignature,
    /// The token's issuer claim is absent or differs from the expected one.
    InvalidIssuer,
    /// The token's header algorithm differs from the resolved key's.
    InvalidAlgorithm,
    /// The token's expiry claim is not in the future.
    Expired,
    /// The key-set document could not be fetched or parsed.
    UpstreamFetchFailure,
}

/// The problem answered at the HTTP boundary.  Authentication failures all
/// collapse to `Unauthorized` there, leaking no internal detail.
#[derive(Debug, PartialEq, Eq)]
pub enum Problem {
    BadRequest(String),
    Conflict(String),
    InternalServerError(String),
    NotFound(String),
    Unauthorized(String),
}

impl Problem {
    /// The HTTP status code this problem is answered with.
    pub fn status_code(&self) -> (r: u16)
        ensures
            r == (match self {
                Problem::BadRequest(_) => 400u16,
                Problem::Conflict(_) => 409u16,
                Problem::InternalServerError(_) => 500u16,
                Problem::NotFound(_) => 404u16,
                Problem::Unauthorized(_) => 401u16,
            }),
    {
        match self {
            Problem::BadRequest(_) => 400,
            Problem::Conflict(_) => 409,
            Problem::InternalServerError(_) => 500,
            Problem::NotFound(_) => 404,
            Problem::Unauthorized(_) => 401,
        }
    }

    /// The title of the problem document for this variant.
    pub fn title(&self) -> (r: &'static str)
        ensures
            self matches Problem::BadRequest(_) ==> r@ == "Bad Request"@,
            self matches Problem::Conflict(_) ==> r@ == "Conflict"@,
            self matches Problem::InternalServerError(_) ==> r@ == "Internal Server Error"@,
            self matches Problem::NotFound(_) ==> r@ == "Not Found"@,
            self matches Problem::Unauthorized(_) ==> r@ == "Unauthorized"@,
    {
        match self {
            Problem::BadRequest(_) => "Bad Request",
            Problem::Conflict(_) => "Conflict",
            Problem::InternalServerError(_) => "Internal Server Error",
            Problem::NotFound(_) => "Not Found",
            Problem::Unauthorized(_) => "Unauthorized",
        }
    }

    /// The path segment naming this problem kind under the problem type URL.
    pub fn slug(&self) -> (r: &'static str)
        ensures
            self matches Problem::BadRequest(_) ==> r@ == "bad-request"@,
            self matches Problem::Conflict(_) ==> r@ == "conflict"@,
            self matches Problem::InternalServerError(_) ==> r@ == "internal-server-error"@,
            self matches Problem::NotFound(_) ==> r@ == "not-found"@,
            self matches Problem::Unauthorized(_) ==> r@ == "unauthorized"@,
    {
        match self {
            Problem::BadRequest(_) => "bad-request",
            Problem::Conflict(_) => "conflict",
            Problem::InternalServerError(_) => "internal-server-error",
            Problem::NotFound(_) => "not-found",
            Problem::Unauthorized(_) => "unauthorized",
        }
    }

    /// The human-readable detail the problem was constructed with.
    pub fn detail(&self) -> (r: &str)
        ensures
            r@ == (match self {
                Problem::BadRequest(d) => d@,
                Problem::Conflict(d) => d@,
                Problem::InternalServerError(d) => d@,
                Problem::NotFound(d) => d@,
                Problem::Unauthorized(d) => d@,
            }),
    {
        match self {
            Problem::BadRequest(d) => d.as_str(),
            Problem::Conflict(d) => d.as_str(),
            Problem::InternalServerError(d) => d.as_str(),
            Problem::NotFound(d) => d.as_str(),
            Problem::Unauthorized(d) => d.as_str(),
        }
    }
}

/// The detail string used when a credential is missing altogether.
pub open spec fn missing_credential_detail() -> Seq<char> {
    "Missing authorization header"@
}

/// The detail string used when a credential is present but unusable.
pub open spec fn malformed_credential_detail() -> Seq<char> {
    "Invalid bearer token"@
}

/// The detail string used for every failure of the token itself.
pub open spec fn invalid_token_detail() -> Seq<char> {
    "Invalid token"@
}

/// The detail an authentication failure collapses to at the service
/// boundary: it distinguishes only how the credential reached us, never why
/// the token was rejected.
pub open spec fn spec_detail_of(e: AuthError) -> Seq<char> {
    match e {
        AuthError::MissingCredential => missing_credential_detail(),
        AuthError::MalformedCredential => malformed_credential_detail(),
        _ => invalid_token_detail(),
    }
}

/// Whether `r` is the boundary problem that the failure `e` collapses to:
/// always a generic `Unauthorized`.
pub open spec fn is_problem_of(r: Problem, e: AuthError) -> bool {
    r matches Problem::Unauthorized(d) && d@ == spec_detail_of(e)
}

/// Collapse an authentication failure to the boundary problem.
pub fn problem_of(e: &AuthError) -> (r: Problem)
    ensures
        is_problem_of(r, *e),
{
    match e {
        AuthError::MissingCredential => Problem::Unauthorized("Missing authorization header".to_owned()),
        AuthError::MalformedCredential => Problem::Unauthorized("Invalid bearer token".to_owned()),
        _ => Problem::Unauthorized("Invalid token".to_owned()),
    }
}

} // verus!
