//! Bearer-token authentication for an OIDC-protected service.
//!
//! The crate verifies JSON Web Tokens against a cached JSON Web Key Set
//! (JWKS) fetched from an identity provider, keeps a second-tier cache of
//! already-validated tokens, and exposes a per-request interceptor that
//! turns a transport credential into a verified subject identifier or a
//! typed authentication failure.
//!
//! All I/O (the HTTPS fetch of the key set, reading request headers) is the
//! caller's business: the library works on plain values and tells the caller
//! when a key-set refresh is needed.

pub mod alg;
pub mod claims;
pub mod credential;
pub mod dtos;
pub mod errors;
pub mod jwks;
pub mod jwks_parse;
pub mod interceptor;
pub mod jwt;
pub mod laws;
pub mod service;
pub mod token_cache;
pub mod validator;
