//! Verified core of a credential-based authentication and authorization
//! service: salted keyed password hashing, signed session tokens, a bearer
//! auth gate, a role-to-store router, and an account registrar.

pub mod credentials;
pub mod errors;
pub mod gate;
pub mod roles;
pub mod store;
pub mod token;
