//! Auth gate: the per-request decision applied to every protected route.
//! A missing bearer token is rejected outright; a presented token is
//! verified and, when valid, its claims are handed to the request's
//! handler; the handler then picks its backing store through the role
//! router, never by its own mapping.

use vstd::prelude::*;
use crate::errors::ApiError;
use crate::roles::StorePartition;
use crate::roles::route;
use crate::roles::route_spec;
use crate::token::TokenClaims;
use crate::token::claims_of;
use crate::token::verify_token;

verus! {

/// Authorizes one request. With no token the request is
/// rejected as missing credentials; with a token it is accepted exactly
/// when the token verifies under the signing secret, and the claims
/// attached to the request are exactly the ones the token carries.
pub fn authorize(token: Option<&str>, secret: &[u8]) -> (r: Result<TokenClaims, ApiError>)
    ensures
        token is None ==> (r matches Err(e) && e == ApiError::MissingCredentials),
        token matches Some(t) ==> (r is Ok <==> claims_of(t@, secret@) is Some),
        token matches Some(t) ==> (r matches Ok(c) ==> claims_of(t@, secret@) == Some(
            (c.id, c.security_lvl),
        )),
        token matches Some(t) && claims_of(t@, secret@) is None ==> (r matches Err(e) && e
            == ApiError::AuthenticationFailure),
{
    match token {
        None => Err(ApiError::MissingCredentials),
        Some(t) => verify_token(t, secret),
    }
}

/// The store-selection step every protected handler performs: requests
/// whose identity could not be established are rejected; authenticated
/// requests are routed to the partition their security level maps to.
pub fn select_store(claims: Option<&TokenClaims>) -> (r: Result<StorePartition, ApiError>)
    ensures
        claims is None ==> (r matches Err(e) && e == ApiError::MissingCredentials),
        claims matches Some(c) ==> (r matches Ok(p) && p == route_spec(c.security_lvl)),
{
    match claims {
        None => Err(ApiError::MissingCredentials),
        Some(c) => Ok(route(c.security_lvl)),
    }
}

} // verus!
