//! Token issuer and verifier: signs the session claims into a compact
//! tamper-evident token with an HMAC-SHA-256 keyed message authentication
//! code over the signing secret, and verifies that signature on each
//! request. Tokens are stateless and carry no expiry: a token stays valid
//! while the secret is unchanged, a deliberate scope limit of this design.

use std::collections::BTreeMap;
use hmac::Hmac;
use hmac::Mac;
use jwt::SignWithKey;
use jwt::VerifyWithKey;
use sha2::Sha256;
use vstd::prelude::*;
use crate::errors::ApiError;

verus! {

/// The session claims carried inside a signed token: the account's id and
/// its security level. Derived at login, reconstructed on each request,
/// never persisted.
#[derive(Clone, Copy, Debug, PartialEq, Eq, Structural)]
pub struct TokenClaims {
    pub id: i32,
    pub security_lvl: i32,
}

/// The token that signing the given claims with the given secret produces.
/// Signing is deterministic: the claims are serialized with their fields in
/// a fixed order and authenticated with a deterministic keyed code.
pub uninterp spec fn token_of(id: i32, security_lvl: i32, secret: Seq<u8>) -> Seq<char>;

/// The claims that verifying the given token with the given secret yields,
/// or nothing when the token is malformed or its signature does not match.
/// Verification is a deterministic function of the token and the secret.
pub uninterp spec fn claims_of(token: Seq<char>, secret: Seq<u8>) -> Option<(i32, i32)>;

/// Relies on jwt's SignWithKey over an HMAC-SHA-256 key that the hmac crate
/// builds from the signing secret: the token is a deterministic function of
/// the claims and the secret, covers the full claims payload, and verifying
/// it with the same secret recovers exactly the claims that were signed.
/// The call always succeeds: an HMAC key accepts any secret length, and
/// serializing the fixed header and the two-entry integer claims map
/// cannot fail; the error arms below are defensive only.
#[verifier::external_body]
fn jwt_sign(id: i32, security_lvl: i32, secret: &[u8]) -> (r: Result<String, ApiError>)
    ensures
        r is Ok,
        r matches Ok(t) ==> t@ == token_of(id, security_lvl, secret@) && claims_of(t@, secret@)
            == Some((id, security_lvl)) && t@.len() > 0,
{
    let key: Hmac<Sha256> = match Hmac::new_from_slice(secret) {
        Ok(k) => k,
        Err(_) => return Err(ApiError::ServiceFault),
    };
    let mut claims: BTreeMap<String, i32> = BTreeMap::new();
    claims.insert("id".to_owned(), id);
    claims.insert("security_lvl".to_owned(), security_lvl);
    match claims.sign_with_key(&key) {
        Ok(t) => Ok(t),
        Err(_) => Err(ApiError::ServiceFault),
    }
}

/// Relies on jwt's VerifyWithKey over an HMAC-SHA-256 key built from the
/// signing secret: it recomputes the signature over the token's payload,
/// compares in constant time through the hmac crate, and yields the claims
/// only when the shape and the signature are valid. The result is a
/// deterministic function of the token and the secret.
#[verifier::external_body]
fn jwt_verify(token: &str, secret: &[u8]) -> (r: Result<(i32, i32), ApiError>)
    ensures
        r matches Ok(c) ==> claims_of(token@, secret@) == Some(c),
        r is Err ==> claims_of(token@, secret@) is None,
        r matches Err(e) ==> e == ApiError::AuthenticationFailure,
{
    let key: Hmac<Sha256> = match Hmac::new_from_slice(secret) {
        Ok(k) => k,
        Err(_) => return Err(ApiError::AuthenticationFailure),
    };
    let claims: BTreeMap<String, i32> = match token.verify_with_key(&key) {
        Ok(c) => c,
        Err(_) => return Err(ApiError::AuthenticationFailure),
    };
    match (claims.get("id"), claims.get("security_lvl")) {
        (Some(&id), Some(&lvl)) => Ok((id, lvl)),
        _ => Err(ApiError::AuthenticationFailure),
    }
}

/// Signs the claims into a compact token. Issuance succeeds on every
/// input: the token is the deterministic signature-covered encoding of the
/// claims, it is non-empty, and it round-trips — verifying it with the
/// same secret yields back exactly the claims it was issued for. The
/// result type stays recoverable so a signing fault could never panic.
pub fn issue_token(claims: &TokenClaims, secret: &[u8]) -> (r: Result<String, ApiError>)
    ensures
        r is Ok,
        r matches Ok(t) ==> t@ == token_of(claims.id, claims.security_lvl, secret@),
        r matches Ok(t) ==> claims_of(t@, secret@) == Some((claims.id, claims.security_lvl)),
        r matches Ok(t) ==> t@.len() > 0,
{
    jwt_sign(claims.id, claims.security_lvl, secret)
}

/// Verifies a presented token and reconstructs its claims. Succeeds exactly
/// when the token carries a valid signature under this secret; a mismatch
/// or a malformed token is an authentication failure, never a panic. The
/// outcome is determined by the token and the secret alone, so a tampered
/// token fails deterministically.
pub fn verify_token(token: &str, secret: &[u8]) -> (r: Result<TokenClaims, ApiError>)
    ensures
        r matches Ok(c) ==> claims_of(token@, secret@) == Some((c.id, c.security_lvl)),
        r is Ok <==> claims_of(token@, secret@) is Some,
        r matches Err(e) ==> e == ApiError::AuthenticationFailure,
{
    match jwt_verify(token, secret) {
        Ok(c) => Ok(TokenClaims { id: c.0, security_lvl: c.1 }),
        Err(e) => Err(e),
    }
}

} // verus!
