use crust_ai::auth_flow::registration_row;
use crust_ai::route_guard::login_path;
use crust_ai::{
    login, protected_route_access, register, AccountUpdate, AuthError, HashFailure,
    PasswordHash, RouteAccess, User,
};

const NOW: i128 = 1_700_000_000_000_000_000;
const FIFTEEN_MINUTES: i128 = 900_000_000_000;

fn user_with(hash: &str, is_active: bool, failed: i32, locked_until: Option<i128>) -> User {
    User {
        unid: uuid::Uuid::from_u128(0x1234_5678_9abc_def0_1234_5678_9abc_def0),
        email: "ann@example.com".to_string(),
        username: "ann".to_string(),
        password_hash: PasswordHash::new(hash.to_string()),
        is_active,
        role: "user".to_string(),
        first_name: None,
        last_name: None,
        created_at: 0,
        updated_at: 0,
        last_login_at: Some(42),
        last_password_change_at: None,
        failed_login_attempts: failed,
        locked_until,
    }
}

const KNOWN_HASH: &str = "$2y$05$bvIG6Nmid91Mu9RcmmWZfO5HJIMCT8riNW0hEp8f6/FuA2/mHZFpe";

fn success_update() -> Option<AccountUpdate> {
    Some(AccountUpdate { failed_login_attempts: 0, locked_until: None, last_login_at: Some(NOW) })
}

#[test]
fn registered_password_logs_in() {
    let row = register("ann@example.com".to_string(), "ann".to_string(), "s3cret".to_string())
        .unwrap();
    assert_eq!(row.email, "ann@example.com");
    assert_eq!(row.username, "ann");
    assert_ne!(row.password_hash, "s3cret");
    assert!(row.password_hash.starts_with("$2b$10$"));
    let user = user_with(&row.password_hash, true, 3, None);
    let id = user.unid;
    let attempt = login(Some(user), "s3cret".to_string(), NOW);
    assert_eq!(attempt.outcome.unwrap(), id);
    assert_eq!(attempt.update, success_update());
}

#[test]
fn wrong_password_counts_a_failure() {
    let user = user_with(KNOWN_HASH, true, 1, None);
    let attempt = login(Some(user), "wrong".to_string(), NOW);
    assert!(matches!(attempt.outcome, Err(AuthError::InvalidCredentials)));
    assert_eq!(
        attempt.update,
        Some(AccountUpdate { failed_login_attempts: 2, locked_until: None, last_login_at: Some(42) })
    );
}

#[test]
fn fifth_failure_locks_for_fifteen_minutes() {
    let user = user_with(KNOWN_HASH, true, 4, None);
    let attempt = login(Some(user), "wrong".to_string(), NOW);
    assert!(matches!(attempt.outcome, Err(AuthError::InvalidCredentials)));
    let update = attempt.update.unwrap();
    assert_eq!(update.failed_login_attempts, 5);
    assert_eq!(update.locked_until, Some(NOW + FIFTEEN_MINUTES));

    // Within the lock, even the right password is refused.
    let locked = user_with(KNOWN_HASH, true, 5, update.locked_until);
    let attempt = login(Some(locked), "password".to_string(), NOW + 60_000_000_000);
    assert!(matches!(attempt.outcome, Err(AuthError::AccountLocked)));
    assert_eq!(attempt.update, None);

    // After it, the right password logs in and clears the lock.
    let expired = user_with(KNOWN_HASH, true, 5, update.locked_until);
    let attempt = login(Some(expired), "password".to_string(), NOW + FIFTEEN_MINUTES);
    assert!(attempt.outcome.is_ok());
    assert_eq!(
        attempt.update,
        Some(AccountUpdate {
            failed_login_attempts: 0,
            locked_until: None,
            last_login_at: Some(NOW + FIFTEEN_MINUTES),
        })
    );
}

#[test]
fn failure_count_at_maximum_writes_nothing() {
    let user = user_with(KNOWN_HASH, true, i32::MAX, None);
    let attempt = login(Some(user), "wrong".to_string(), NOW);
    assert!(matches!(attempt.outcome, Err(AuthError::InvalidCredentials)));
    assert_eq!(attempt.update, None);
}

#[test]
fn disabled_account_is_refused() {
    let user = user_with(KNOWN_HASH, false, 0, None);
    let attempt = login(Some(user), "password".to_string(), NOW);
    let err = attempt.outcome.unwrap_err();
    assert!(matches!(err, AuthError::AccountDisabled));
    assert_eq!(err.message(), "Account is disabled");
    assert_eq!(attempt.update, None);
}

#[test]
fn locked_account_message() {
    let user = user_with(KNOWN_HASH, true, 0, Some(NOW + 1));
    let err = login(Some(user), "password".to_string(), NOW).outcome.unwrap_err();
    assert_eq!(err.message(), "Account temporarily locked");
}

#[test]
fn unknown_email_is_invalid_credentials() {
    let attempt = login(None, "anything".to_string(), NOW);
    let err = attempt.outcome.unwrap_err();
    assert!(matches!(err, AuthError::InvalidCredentials));
    assert_eq!(err.message(), "Invalid email or password");
    assert_eq!(attempt.update, None);
}

#[test]
fn known_bcrypt_hash_verifies() {
    let user = user_with(KNOWN_HASH, true, 0, None);
    let id = user.unid;
    assert_eq!(login(Some(user), "password".to_string(), NOW).outcome.unwrap(), id);
    let user = user_with(KNOWN_HASH, true, 0, None);
    assert!(login(Some(user), "passw0rd".to_string(), NOW).outcome.is_err());
}

#[test]
fn malformed_stored_hash_is_rejected() {
    let user = user_with("$2b$10$\u{80}\u{80}\u{80}", true, 0, None);
    assert!(matches!(
        login(Some(user), "x".to_string(), NOW).outcome,
        Err(AuthError::InvalidCredentials)
    ));
    let user = user_with("not a hash", true, 0, None);
    assert!(matches!(
        login(Some(user), "x".to_string(), NOW).outcome,
        Err(AuthError::InvalidCredentials)
    ));
}

#[test]
fn registration_row_from_hash_outcome() {
    let row = registration_row(
        "b@c.d".to_string(),
        "bee".to_string(),
        Ok("$2b$10$abc".to_string()),
    )
    .unwrap();
    assert_eq!(row.email, "b@c.d");
    assert_eq!(row.username, "bee");
    assert_eq!(row.password_hash, "$2b$10$abc");

    let err = registration_row(
        "b@c.d".to_string(),
        "bee".to_string(),
        Err(HashFailure::InvalidRounds),
    )
    .unwrap_err();
    assert!(matches!(err, AuthError::PasswordHash(HashFailure::InvalidRounds)));
    assert_eq!(err.message(), "Invalid rounds value");
}

#[test]
fn hash_failure_messages() {
    assert_eq!(HashFailure::EncodingError.message(), "Invalid encoding");
    assert_eq!(HashFailure::InsufficientLength.message(), "Encoded value is too short");
    assert_eq!(HashFailure::InvalidRounds.message(), "Invalid rounds value");
    assert_eq!(HashFailure::InvalidHashString.message(), "Invalid hash string");
    assert_eq!(HashFailure::RandomError("no entropy".to_string()).message(), "no entropy");
}

#[test]
fn password_hash_is_read_back() {
    let hash = PasswordHash::new("abc".to_string());
    assert_eq!(hash.as_str(), "abc");
    assert_eq!(hash.into_string(), "abc");
}

#[test]
fn session_user_flags() {
    let user = user_with("", false, 0, None);
    assert!(user.is_authenticated());
    assert!(!user.is_anonymous());
    assert!(!user.is_active());
    let user = user_with("", true, 0, None);
    assert!(user.is_active());
}

#[test]
fn protected_route_decisions() {
    let pending: Option<Result<Option<User>, String>> = None;
    assert_eq!(protected_route_access(&pending), RouteAccess::Pending);
    let signed_in: Option<Result<Option<User>, String>> =
        Some(Ok(Some(user_with("", true, 0, None))));
    assert_eq!(protected_route_access(&signed_in), RouteAccess::Render);
    let signed_out: Option<Result<Option<User>, String>> = Some(Ok(None));
    assert_eq!(protected_route_access(&signed_out), RouteAccess::RedirectToLogin);
    let failed: Option<Result<Option<User>, String>> = Some(Err("Invalid state".to_string()));
    assert_eq!(protected_route_access(&failed), RouteAccess::RedirectToLogin);
    assert_eq!(login_path(), "/login");
}
