use auth_core::credentials::generate_salt;
use auth_core::credentials::hash_password;
use auth_core::credentials::verify_password;
use auth_core::errors::ApiError;
use auth_core::gate::authorize;
use auth_core::gate::select_store;
use auth_core::roles::route;
use auth_core::roles::StorePartition;
use auth_core::store::AccountStore;
use auth_core::token::issue_token;
use auth_core::token::verify_token;
use auth_core::token::TokenClaims;

const HASH_SECRET: &str = "test-hashing-secret";
const SIGNING_SECRET: &[u8] = b"test-signing-secret";

#[test]
fn route_mapping_table() {
    assert_eq!(route(0), StorePartition::Admin);
    assert_eq!(route(1), StorePartition::Moderator);
    assert_eq!(route(2), StorePartition::User);
    assert_eq!(route(99), StorePartition::Auth);
    assert_eq!(route(-1), StorePartition::Auth);
    assert_eq!(route(i32::MAX), StorePartition::Auth);
}

#[test]
fn salt_is_fixed_length_alphanumeric() {
    let salt = generate_salt();
    assert_eq!(salt.len(), 8);
    assert!(salt.chars().all(|c| c.is_ascii_alphanumeric()));
}

#[test]
fn salts_are_random_per_account() {
    let a = generate_salt();
    let b = generate_salt();
    assert_ne!(a, b);
}

#[test]
fn hash_then_verify_succeeds() {
    let salt = generate_salt();
    let hash = hash_password("pw1", &salt, HASH_SECRET).unwrap();
    assert!(!hash.is_empty());
    assert_ne!(hash, "pw1");
    let ok = verify_password(&hash, "pw1", &salt, HASH_SECRET).unwrap();
    assert!(ok);
}

#[test]
fn verify_rejects_other_password() {
    let salt = generate_salt();
    let hash = hash_password("pw1", &salt, HASH_SECRET).unwrap();
    let ok = verify_password(&hash, "pw2", &salt, HASH_SECRET).unwrap();
    assert!(!ok);
}

#[test]
fn hash_is_deterministic_for_same_inputs() {
    let h1 = hash_password("pw1", "saltsalt", HASH_SECRET).unwrap();
    let h2 = hash_password("pw1", "saltsalt", HASH_SECRET).unwrap();
    assert_eq!(h1, h2);
}

#[test]
fn hash_differs_with_salt_and_secret() {
    let h1 = hash_password("pw1", "saltsalt", HASH_SECRET).unwrap();
    let h2 = hash_password("pw1", "tlastlas", HASH_SECRET).unwrap();
    let h3 = hash_password("pw1", "saltsalt", "other-hashing-secret").unwrap();
    assert_ne!(h1, h2);
    assert_ne!(h1, h3);
}

#[test]
fn token_round_trip_returns_claims() {
    let claims = TokenClaims { id: 42, security_lvl: 1 };
    let token = issue_token(&claims, SIGNING_SECRET).unwrap();
    assert!(!token.is_empty());
    let back = verify_token(&token, SIGNING_SECRET).unwrap();
    assert_eq!(back.id, 42);
    assert_eq!(back.security_lvl, 1);
}

#[test]
fn token_round_trip_negative_id() {
    let claims = TokenClaims { id: -7, security_lvl: 99 };
    let token = issue_token(&claims, SIGNING_SECRET).unwrap();
    let back = verify_token(&token, SIGNING_SECRET).unwrap();
    assert_eq!(back.id, -7);
    assert_eq!(back.security_lvl, 99);
}

#[test]
fn tampered_token_fails_deterministically() {
    let claims = TokenClaims { id: 42, security_lvl: 1 };
    let token = issue_token(&claims, SIGNING_SECRET).unwrap();
    // Flip one byte in the middle of the token.
    let mut bytes = token.clone().into_bytes();
    let mid = bytes.len() / 2;
    bytes[mid] = if bytes[mid] == b'A' { b'B' } else { b'A' };
    let tampered = String::from_utf8(bytes).unwrap();
    assert_ne!(token, tampered);
    let first = verify_token(&tampered, SIGNING_SECRET);
    let second = verify_token(&tampered, SIGNING_SECRET);
    assert_eq!(first.unwrap_err(), ApiError::AuthenticationFailure);
    assert_eq!(second.unwrap_err(), ApiError::AuthenticationFailure);
    // The untampered token still verifies.
    assert!(verify_token(&token, SIGNING_SECRET).is_ok());
}

#[test]
fn token_with_wrong_secret_fails() {
    let claims = TokenClaims { id: 1, security_lvl: 2 };
    let token = issue_token(&claims, SIGNING_SECRET).unwrap();
    let r = verify_token(&token, b"another-signing-secret");
    assert_eq!(r.unwrap_err(), ApiError::AuthenticationFailure);
}

#[test]
fn malformed_token_fails() {
    assert!(verify_token("", SIGNING_SECRET).is_err());
    assert!(verify_token("not.a.token", SIGNING_SECRET).is_err());
}

#[test]
fn register_returns_public_view() {
    let mut store = AccountStore::new();
    let view = store.register("alice", "pw1", HASH_SECRET).unwrap();
    assert_eq!(view.login, "alice");
    assert_eq!(view.id, 1);
    let records = store.accounts();
    assert_eq!(records.len(), 1);
    assert_eq!(records[0].login, "alice");
    assert_eq!(records[0].security_lvl, 2);
    assert_ne!(records[0].hashed_password, "pw1");
}

#[test]
fn register_same_login_twice_is_conflict() {
    let mut store = AccountStore::new();
    let first = store.register("alice", "pw1", HASH_SECRET).unwrap();
    let second = store.register("alice", "pw2", HASH_SECRET);
    let err = second.unwrap_err();
    assert_eq!(err, ApiError::Conflict);
    assert_eq!(err.status_code(), 409);
    // The first account is unchanged and no duplicate row exists.
    let records = store.accounts();
    assert_eq!(records.len(), 1);
    assert_eq!(records[0].id, first.id);
    assert_eq!(records[0].login, "alice");
    // The original password still authenticates.
    assert!(store.authenticate("alice", "pw1", HASH_SECRET, SIGNING_SECRET).is_ok());
}

#[test]
fn authenticate_unknown_login_fails() {
    let store = AccountStore::new();
    let r = store.authenticate("nobody", "pw1", HASH_SECRET, SIGNING_SECRET);
    assert_eq!(r.unwrap_err(), ApiError::AuthenticationFailure);
}

#[test]
fn authenticate_wrong_password_fails_like_unknown_login() {
    let mut store = AccountStore::new();
    store.register("alice", "pw1", HASH_SECRET).unwrap();
    let wrong_password = store
        .authenticate("alice", "pw2", HASH_SECRET, SIGNING_SECRET)
        .unwrap_err();
    let unknown_login = store
        .authenticate("bob", "pw1", HASH_SECRET, SIGNING_SECRET)
        .unwrap_err();
    // Neither the error nor the message reveals which part was wrong.
    assert_eq!(wrong_password, unknown_login);
    assert_eq!(wrong_password.message(), unknown_login.message());
    assert_eq!(wrong_password.status_code(), 401);
}

#[test]
fn end_to_end_register_login_protected_route() {
    let mut store = AccountStore::new();
    let view = store.register("alice", "pw1", HASH_SECRET).unwrap();
    assert_eq!(view.login, "alice");

    let token = store
        .authenticate("alice", "pw1", HASH_SECRET, SIGNING_SECRET)
        .unwrap();
    assert!(!token.is_empty());

    // Reusing the token on a protected route succeeds and routes to the
    // store matching the account's stored security level.
    let claims = authorize(Some(&token), SIGNING_SECRET).unwrap();
    assert_eq!(claims.id, view.id);
    assert_eq!(claims.security_lvl, 2);
    let partition = select_store(Some(&claims)).unwrap();
    assert_eq!(partition, StorePartition::User);

    // The same route with no credentials is rejected with a 401.
    let rejected = authorize(None, SIGNING_SECRET).unwrap_err();
    assert_eq!(rejected.status_code(), 401);
}

#[test]
fn register_with_level_routes_to_matching_partition() {
    let mut store = AccountStore::new();
    store
        .register_with_level("root", "pw0", HASH_SECRET, 0)
        .unwrap();
    let token = store
        .authenticate("root", "pw0", HASH_SECRET, SIGNING_SECRET)
        .unwrap();
    let claims = authorize(Some(&token), SIGNING_SECRET).unwrap();
    assert_eq!(claims.security_lvl, 0);
    assert_eq!(select_store(Some(&claims)).unwrap(), StorePartition::Admin);
}

#[test]
fn delete_account_removes_the_record() {
    let mut store = AccountStore::new();
    store.register("alice", "pw1", HASH_SECRET).unwrap();
    store.register("bob", "pw2", HASH_SECRET).unwrap();
    let removed = store.delete_account("alice").unwrap();
    assert_eq!(removed.login, "alice");
    assert_eq!(store.accounts().len(), 1);
    assert_eq!(store.accounts()[0].login, "bob");
    // Deleting an absent login fails and leaves the store unchanged.
    assert!(store.delete_account("alice").is_err());
    assert_eq!(store.accounts().len(), 1);
}

#[test]
fn account_views_expose_only_id_and_login() {
    let mut store = AccountStore::new();
    store.register("alice", "pw1", HASH_SECRET).unwrap();
    store.register("bob", "pw2", HASH_SECRET).unwrap();
    let views = store.account_views();
    assert_eq!(views.len(), 2);
    assert_eq!(views[0].id, 1);
    assert_eq!(views[0].login, "alice");
    assert_eq!(views[1].id, 2);
    assert_eq!(views[1].login, "bob");
}

#[test]
fn find_and_availability() {
    let mut store = AccountStore::new();
    assert!(store.is_login_available("alice"));
    assert!(store.find_by_login("alice").is_none());
    store.register("alice", "pw1", HASH_SECRET).unwrap();
    assert!(!store.is_login_available("alice"));
    assert_eq!(store.find_by_login("alice"), Some(0));
}

#[test]
fn select_store_without_identity_is_rejected() {
    let r = select_store(None);
    let e = r.unwrap_err();
    assert_eq!(e, ApiError::MissingCredentials);
    assert_eq!(e.status_code(), 401);
    let claims = TokenClaims { id: 9, security_lvl: 1 };
    assert_eq!(select_store(Some(&claims)).unwrap(), StorePartition::Moderator);
}

#[test]
fn error_status_codes_and_messages() {
    assert_eq!(ApiError::AuthenticationFailure.status_code(), 401);
    assert_eq!(ApiError::MissingCredentials.status_code(), 401);
    assert_eq!(ApiError::Conflict.status_code(), 409);
    assert_eq!(ApiError::StoreFault.status_code(), 500);
    assert_eq!(ApiError::ServiceFault.status_code(), 500);
    assert_eq!(
        ApiError::AuthenticationFailure.message(),
        "incorrect login or password"
    );
    assert_eq!(ApiError::Conflict.message(), "login not available");
    // Store faults stay opaque: no detail reaches the client.
    assert_eq!(ApiError::StoreFault.message(), "internal server error");
}
