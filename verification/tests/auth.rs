use penspecter::auth::{login, register, AuthError, LoginRequest, RegisterRequest};
use penspecter::hashing::{hash_password, verify_password, HashError};
use penspecter::log::LogType;
use penspecter::store::CredentialStore;

fn reg_req(username: &str, email: &str, password: &str) -> RegisterRequest {
    RegisterRequest {
        username: username.to_string(),
        email: email.to_string(),
        password: password.to_string(),
    }
}

fn login_req(username: &str, password: &str) -> LoginRequest {
    LoginRequest { username: username.to_string(), password: password.to_string() }
}

#[test]
fn fresh_artifact_verifies() {
    let artifact = hash_password("secret").unwrap();
    assert_eq!(verify_password("secret", &artifact), Ok(true));
}

#[test]
fn wrong_password_does_not_verify() {
    let artifact = hash_password("secret").unwrap();
    assert_eq!(verify_password("not-the-secret", &artifact), Ok(false));
}

#[test]
fn empty_password_round_trip() {
    let artifact = hash_password("").unwrap();
    assert_eq!(verify_password("", &artifact), Ok(true));
    assert_eq!(verify_password("x", &artifact), Ok(false));
}

#[test]
fn repeated_hashing_salts_differently() {
    let first = hash_password("secret").unwrap();
    let second = hash_password("secret").unwrap();
    assert_ne!(first, second);
    assert_eq!(verify_password("secret", &first), Ok(true));
    assert_eq!(verify_password("secret", &second), Ok(true));
}

#[test]
fn artifact_is_not_the_plaintext() {
    let artifact = hash_password("secret").unwrap();
    assert_ne!(artifact, "secret");
    assert!(artifact.starts_with('$'));
}

#[test]
fn malformed_artifact_is_a_parse_failure() {
    assert_eq!(verify_password("secret", "not an artifact"), Err(HashError::ParseFailure));
    assert_eq!(verify_password("secret", ""), Err(HashError::ParseFailure));
    assert_eq!(verify_password("secret", "$argon2id$"), Err(HashError::ParseFailure));
}

#[test]
fn duplicate_username_is_rejected() {
    let mut store = CredentialStore::new();
    assert!(register(&mut store, &reg_req("alice", "a@x.com", "secret")).is_ok());
    let second = register(&mut store, &reg_req("alice", "b@x.com", "secret"));
    assert_eq!(second.unwrap_err(), AuthError::UsernameTaken);
    assert_eq!(store.len(), 1);
}

#[test]
fn duplicate_email_is_rejected() {
    let mut store = CredentialStore::new();
    assert!(register(&mut store, &reg_req("alice", "a@x.com", "secret")).is_ok());
    let second = register(&mut store, &reg_req("bob", "a@x.com", "other"));
    assert_eq!(second.unwrap_err(), AuthError::EmailTaken);
    assert_eq!(store.len(), 1);
}

#[test]
fn username_collision_takes_precedence_over_email() {
    let mut store = CredentialStore::new();
    assert!(register(&mut store, &reg_req("alice", "a@x.com", "secret")).is_ok());
    let second = register(&mut store, &reg_req("alice", "a@x.com", "secret"));
    assert_eq!(second.unwrap_err(), AuthError::UsernameTaken);
}

#[test]
fn two_registrations_of_one_username_have_one_winner() {
    let mut store = CredentialStore::new();
    let first = register(&mut store, &reg_req("dave", "d1@x.com", "pw"));
    let second = register(&mut store, &reg_req("dave", "d2@x.com", "pw"));
    assert!(first.is_ok());
    assert_eq!(second.unwrap_err(), AuthError::UsernameTaken);
    assert_eq!(store.len(), 1);
}

#[test]
fn unknown_username_login_fails() {
    let store = CredentialStore::new();
    let outcome = login(&store, &login_req("nobody", "pw"));
    assert_eq!(outcome.unwrap_err(), AuthError::InvalidCredentials);
}

#[test]
fn wrong_password_is_indistinguishable_from_unknown_user() {
    let mut store = CredentialStore::new();
    assert!(register(&mut store, &reg_req("carol", "c@x.com", "right")).is_ok());
    let wrong_password = login(&store, &login_req("carol", "wrong")).unwrap_err();
    let unknown_user = login(&store, &login_req("mallory", "wrong")).unwrap_err();
    assert_eq!(wrong_password, unknown_user);
    assert_eq!(wrong_password.status_code(), unknown_user.status_code());
    assert_eq!(wrong_password.label(), unknown_user.label());
}

#[test]
fn register_then_login_scenario() {
    let mut store = CredentialStore::new();
    assert!(register(&mut store, &reg_req("bob", "b@x.com", "pw1")).is_ok());
    assert!(login(&store, &login_req("bob", "pw1")).is_ok());
    let wrong = login(&store, &login_req("bob", "wrong"));
    assert_eq!(wrong.unwrap_err(), AuthError::InvalidCredentials);
}

#[test]
fn successful_registration_stores_the_artifact() {
    let mut store = CredentialStore::new();
    let response = register(&mut store, &reg_req("erin", "e@x.com", "pw")).unwrap();
    assert_eq!(response.msg, "");
    assert_eq!(store.len(), 1);
    let record = store.record_at(0);
    assert_eq!(record.username, "erin");
    assert_eq!(record.email.as_deref(), Some("e@x.com"));
    assert_ne!(record.password_hash, "pw");
    assert_eq!(verify_password("pw", &record.password_hash), Ok(true));
}

#[test]
fn distinct_users_log_in_independently() {
    let mut store = CredentialStore::new();
    assert!(register(&mut store, &reg_req("frank", "f@x.com", "pw-f")).is_ok());
    assert!(register(&mut store, &reg_req("grace", "g@x.com", "pw-g")).is_ok());
    assert_eq!(store.len(), 2);
    assert!(login(&store, &login_req("frank", "pw-f")).is_ok());
    assert!(login(&store, &login_req("grace", "pw-g")).is_ok());
    assert_eq!(
        login(&store, &login_req("frank", "pw-g")).unwrap_err(),
        AuthError::InvalidCredentials
    );
}

#[test]
fn error_status_codes() {
    assert_eq!(AuthError::InvalidCredentials.status_code(), 401);
    assert_eq!(AuthError::UsernameTaken.status_code(), 409);
    assert_eq!(AuthError::EmailTaken.status_code(), 409);
    assert_eq!(AuthError::HashFailure.status_code(), 500);
    assert_eq!(AuthError::StoreFailure.status_code(), 500);
}

#[test]
fn error_labels() {
    assert_eq!(AuthError::InvalidCredentials.label(), "InvalidCredentials");
    assert_eq!(AuthError::UsernameTaken.label(), "UsernameTaken");
    assert_eq!(AuthError::EmailTaken.label(), "EmailTaken");
    assert_eq!(AuthError::HashFailure.label(), "HashFailure");
    assert_eq!(AuthError::StoreFailure.label(), "StoreFailure");
}

#[test]
fn log_tags() {
    assert_eq!(LogType::SETUP.tag(), "[SETUP]");
    assert_eq!(LogType::HTTP.tag(), "[HTTP]");
}
