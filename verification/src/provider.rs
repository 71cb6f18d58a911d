//! The middleware's interface to the OpenID Provider: verified identity
//! claims as plain values, the exchange failure taxonomy, and the
//! generation of the per-login random secrets.
//!
//! The network half of the provider client — metadata discovery and the
//! code-for-token exchange — runs in the embedding application; its
//! verified outcome enters the middleware as a `Result<IdentityClaims,
//! ExchangeError>`.

use vstd::prelude::*;

verus! {

/// The verified result of a code exchange: what the provider asserts
/// about the authenticated subject after signature, issuer, audience,
/// expiry and nonce checks all passed.
#[derive(Clone, Debug)]
pub struct IdentityClaims {
    /// Stable provider-assigned user identifier.
    pub subject: Vec<u8>,
    /// Display name, where the provider reported one.
    pub name: Option<Vec<u8>>,
    /// E-mail address, where the provider reported one.
    pub email: Option<Vec<u8>>,
    /// The client the token was issued to.
    pub audience: Vec<u8>,
    /// Expiry of the identity token, seconds since the Unix epoch.
    pub expiry: u64,
}

/// Why a code exchange failed. Only `TransportFailure` is worth a
/// retry, by starting a new login; every other variant marks a forged
/// or expired flow.
#[derive(Clone, Copy, Debug, PartialEq, Eq, Structural)]
pub enum ExchangeError {
    InvalidCode,
    NonceMismatch,
    SignatureInvalid,
    TokenExpired,
    TransportFailure,
}

/// Relies on `openidconnect::CsrfToken::new_random`: a fresh
/// cryptographically random anti-forgery token, base64url-encoded from
/// 16 random bytes, hence 22 characters long.
#[verifier::external_body]
pub fn fresh_csrf_token() -> (r: Vec<u8>)
    ensures
        r@.len() == 22,
{
    openidconnect::CsrfToken::new_random().secret().clone().into_bytes()
}

/// Relies on `openidconnect::Nonce::new_random`: a fresh
/// cryptographically random replay-protection nonce, base64url-encoded
/// from 16 random bytes, hence 22 characters long.
#[verifier::external_body]
pub fn fresh_nonce() -> (r: Vec<u8>)
    ensures
        r@.len() == 22,
{
    openidconnect::Nonce::new_random().secret().clone().into_bytes()
}

} // verus!
