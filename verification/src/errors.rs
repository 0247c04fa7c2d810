//! Error taxonomy of the service. Authentication failures never distinguish
//! an unknown login from a wrong password; duplicate logins surface as a
//! distinguishable conflict; library faults and store failures are opaque
//! server errors, never panics.

use vstd::prelude::*;

verus! {

/// Every failure the core can report, with its HTTP status class.
#[derive(Clone, Copy, Debug, PartialEq, Eq, Structural)]
pub enum ApiError {
    /// Bad credentials or a bad, missing or malformed token.
    AuthenticationFailure,
    /// A request on a protected route carried no credentials at all.
    MissingCredentials,
    /// The requested login is already taken.
    Conflict,
    /// The backing store failed; details are kept out of the response.
    StoreFault,
    /// A hashing or signing library fault; recoverable, never a panic.
    ServiceFault,
}

impl ApiError {
    /// The HTTP status code this failure is reported with: authentication
    /// failures are 401, a duplicate login is a 409 conflict, and store or
    /// library faults are opaque 500s.
    pub fn status_code(&self) -> (code: u16)
        ensures
            *self == ApiError::AuthenticationFailure ==> code == 401,
            *self == ApiError::MissingCredentials ==> code == 401,
            *self == ApiError::Conflict ==> code == 409,
            *self == ApiError::StoreFault ==> code == 500,
            *self == ApiError::ServiceFault ==> code == 500,
    {
        match self {
            ApiError::AuthenticationFailure => 401,
            ApiError::MissingCredentials => 401,
            ApiError::Conflict => 409,
            ApiError::StoreFault => 500,
            ApiError::ServiceFault => 500,
        }
    }

    /// The client-facing message. It never reveals which part of a
    /// credential pair was wrong and never carries store error details.
    pub fn message(&self) -> (msg: String)
        ensures
            *self == ApiError::AuthenticationFailure ==> msg@ == "incorrect login or password"@,
            *self == ApiError::MissingCredentials ==> msg@ == "must provide login and password"@,
            *self == ApiError::Conflict ==> msg@ == "login not available"@,
            *self == ApiError::StoreFault ==> msg@ == "internal server error"@,
            *self == ApiError::ServiceFault ==> msg@ == "internal server error"@,
    {
        match self {
            ApiError::AuthenticationFailure => "incorrect login or password".to_owned(),
            ApiError::MissingCredentials => "must provide login and password".to_owned(),
            ApiError::Conflict => "login not available".to_owned(),
            ApiError::StoreFault => "internal server error".to_owned(),
            ApiError::ServiceFault => "internal server error".to_owned(),
        }
    }
}

} // verus!
