use auth_core::constants::{SESSION_ID_LENGTH, SESSION_LENGTH_SECONDS};
use auth_core::domain::{Credentials, SessionData, UserData};
use auth_core::hashing::{BcryptHashService, HashService};
use auth_core::memory::{InMemorySessionRepository, InMemoryUserRepository};
use auth_core::registration::{HashUserService, UserCreationError};
use auth_core::repository::{SessionRepository, UserRepository};
use auth_core::service::{
    HashSessionService, LoginError, SessionService, SessionVerifyError,
};

fn creds(email: &str, password: &str) -> Credentials {
    Credentials { email: String::from(email), password: String::from(password) }
}

/// A user store already holding one account whose digest was made by
/// the given hasher.
fn seeded_users(hasher: &BcryptHashService, email: &str, password: &str) -> InMemoryUserRepository {
    let mut users = InMemoryUserRepository::new();
    let digest = hasher.hash(password).unwrap();
    users
        .insert(UserData { email: String::from(email), password_hash: digest })
        .unwrap();
    users
}

fn engine_with_user(
    email: &str,
    password: &str,
) -> HashSessionService<InMemorySessionRepository, InMemoryUserRepository, BcryptHashService> {
    let hasher = BcryptHashService::with_cost(4);
    let users = seeded_users(&hasher, email, password);
    HashSessionService::new(InMemorySessionRepository::new(), users, hasher, 5)
}

#[test]
fn login_success_shape() {
    let mut engine = engine_with_user("user@example.com", "Abcdef1!");
    let session = engine.login_at(creds("user@example.com", "Abcdef1!"), 1_000).unwrap();
    assert_eq!(session.user_id, 1);
    assert_eq!(session.expires, 1_000 + SESSION_LENGTH_SECONDS);
    assert_eq!(session.id.len(), SESSION_ID_LENGTH);
    assert!(session.id.chars().all(|c| c.is_ascii_alphanumeric()));
}

#[test]
fn login_absent_and_mismatch_same_error() {
    let mut engine = engine_with_user("user@example.com", "Abcdef1!");
    let absent = engine.login_at(creds("other@example.com", "Abcdef1!"), 1_000).err().unwrap();
    let mismatch = engine.login_at(creds("user@example.com", "Wrong0ne!"), 1_000).err().unwrap();
    assert_eq!(absent, LoginError::NoUser);
    assert_eq!(mismatch, LoginError::NoUser);
    assert_eq!(absent, mismatch);
}

#[test]
fn login_exhausted_retry_budget() {
    let hasher = BcryptHashService::with_cost(4);
    let users = seeded_users(&hasher, "user@example.com", "Abcdef1!");
    let mut engine = HashSessionService::new(InMemorySessionRepository::new(), users, hasher, 0);
    let r = engine.login_at(creds("user@example.com", "Abcdef1!"), 1_000);
    assert_eq!(r.err().unwrap(), LoginError::Unknown);
}

#[test]
fn login_with_clock() {
    let mut engine = engine_with_user("user@example.com", "Abcdef1!");
    let before = chrono::Utc::now().timestamp();
    let session = SessionService::login(&mut engine, creds("user@example.com", "Abcdef1!"))
        .unwrap();
    let after = chrono::Utc::now().timestamp();
    assert!(session.expires >= before + SESSION_LENGTH_SECONDS);
    assert!(session.expires <= after + SESSION_LENGTH_SECONDS);
}

#[test]
fn verify_live_session() {
    let mut engine = engine_with_user("user@example.com", "Abcdef1!");
    let session = engine.login_at(creds("user@example.com", "Abcdef1!"), 1_000).unwrap();
    let user = engine.verify_at(session.id.as_str(), 1_001).unwrap();
    assert_eq!(user.id, session.user_id);
}

#[test]
fn verify_absent_session() {
    let mut engine = engine_with_user("user@example.com", "Abcdef1!");
    let id = "b".repeat(SESSION_ID_LENGTH);
    let r = engine.verify_at(id.as_str(), 1_000);
    assert_eq!(r.err().unwrap(), SessionVerifyError::Missing);
}

#[test]
fn verify_expired_session_is_missing_and_deleted() {
    let mut sessions = InMemorySessionRepository::new();
    let id = "c".repeat(SESSION_ID_LENGTH);
    sessions
        .insert(&SessionData { id: id.clone(), user_id: 1, expires: 500 })
        .unwrap();
    let hasher = BcryptHashService::with_cost(4);
    let users = seeded_users(&hasher, "user@example.com", "Abcdef1!");
    let mut engine = HashSessionService::new(sessions, users, hasher, 5);
    // expired: expiry is in the past relative to the given clock
    let r = engine.verify_at(id.as_str(), 1_000);
    assert_eq!(r.err().unwrap(), SessionVerifyError::Missing);
    // the record is gone now: indistinguishable from never having existed
    let again = engine.verify_at(id.as_str(), 1_000);
    assert_eq!(again.err().unwrap(), SessionVerifyError::Missing);
}

#[test]
fn verify_at_exact_expiry_is_missing() {
    let mut sessions = InMemorySessionRepository::new();
    let id = "d".repeat(SESSION_ID_LENGTH);
    sessions
        .insert(&SessionData { id: id.clone(), user_id: 1, expires: 1_000 })
        .unwrap();
    let hasher = BcryptHashService::with_cost(4);
    let users = seeded_users(&hasher, "user@example.com", "Abcdef1!");
    let mut engine = HashSessionService::new(sessions, users, hasher, 5);
    let r = engine.verify_at(id.as_str(), 1_000);
    assert_eq!(r.err().unwrap(), SessionVerifyError::Missing);
}

#[test]
fn verify_corrupt_expiry_is_missing() {
    let mut sessions = InMemorySessionRepository::new();
    let id = "e".repeat(SESSION_ID_LENGTH);
    sessions
        .insert(&SessionData { id: id.clone(), user_id: 1, expires: i64::MAX })
        .unwrap();
    let hasher = BcryptHashService::with_cost(4);
    let users = seeded_users(&hasher, "user@example.com", "Abcdef1!");
    let mut engine = HashSessionService::new(sessions, users, hasher, 5);
    let r = engine.verify_at(id.as_str(), 1_000);
    assert_eq!(r.err().unwrap(), SessionVerifyError::Missing);
}

#[test]
fn logout_twice_succeeds_both_times() {
    let mut engine = engine_with_user("user@example.com", "Abcdef1!");
    let session = engine.login_at(creds("user@example.com", "Abcdef1!"), 1_000).unwrap();
    assert!(engine.logout(session.id.as_str()).is_ok());
    assert!(engine.logout(session.id.as_str()).is_ok());
    let r = engine.verify_at(session.id.as_str(), 1_001);
    assert_eq!(r.err().unwrap(), SessionVerifyError::Missing);
}

#[test]
fn logout_of_absent_session_succeeds() {
    let mut engine = engine_with_user("user@example.com", "Abcdef1!");
    let id = "f".repeat(SESSION_ID_LENGTH);
    assert!(engine.logout(id.as_str()).is_ok());
}

#[test]
fn generated_ids_have_fixed_length_and_charset() {
    for _ in 0..50 {
        let id = HashSessionService::<
            InMemorySessionRepository,
            InMemoryUserRepository,
            BcryptHashService,
        >::generate_session_id(SESSION_ID_LENGTH);
        assert_eq!(id.len(), SESSION_ID_LENGTH);
        assert!(id.chars().all(|c| c.is_ascii_alphanumeric()));
    }
}

#[test]
fn bcrypt_digest_roundtrip() {
    let hasher = BcryptHashService::with_cost(4);
    let digest = hasher.hash("Abcdef1!").unwrap();
    assert!(hasher.verify("Abcdef1!", digest.as_str()).unwrap());
    assert!(!hasher.verify("Wrong0ne!", digest.as_str()).unwrap());
    assert!(hasher.verify("Abcdef1!", "not a digest").is_err());
}

#[test]
fn register_then_duplicate() {
    let users = InMemoryUserRepository::new();
    let hasher = BcryptHashService::with_cost(4);
    let mut registration = HashUserService::new(users, hasher);
    assert!(registration.register(creds("user@example.com", "Abcdef1!")).is_ok());
    let r = registration.register(creds("user@example.com", "0therPw!"));
    assert_eq!(r.err().unwrap(), UserCreationError::DuplicateEmail);
}

#[test]
fn in_memory_delete_succeeds_on_present_and_absent_ids() {
    let mut sessions = InMemorySessionRepository::new();
    let id = "i".repeat(SESSION_ID_LENGTH);
    sessions
        .insert(&SessionData { id: id.clone(), user_id: 1, expires: 1_000 })
        .unwrap();
    assert!(sessions.delete(id.as_str()).is_ok());
    assert!(sessions.delete(id.as_str()).is_ok());
    assert!(matches!(
        sessions.get(id.as_str()),
        Err(auth_core::repository::SessionGetError::Missing)
    ));
}

#[test]
fn in_memory_user_repository_assigns_ids_in_order() {
    let mut users = InMemoryUserRepository::new();
    users
        .insert(UserData { email: String::from("a@example.com"), password_hash: String::from("x") })
        .unwrap();
    users
        .insert(UserData { email: String::from("b@example.com"), password_hash: String::from("y") })
        .unwrap();
    let a = users.get_by_email("a@example.com").unwrap();
    let b = users.get_by_email("b@example.com").unwrap();
    assert_eq!(a.id, 1);
    assert_eq!(b.id, 2);
    assert_eq!(a.password_hash, "x");
}
