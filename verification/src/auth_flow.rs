use vstd::prelude::*;
use crate::auth_model::{Timestamp, User};
use crate::password::{
    bcrypt_hash, bcrypt_verify, printable_ascii, hash_accepts, HashFailure, hash_failure_text,
};

verus! {

/// Why registration or login was refused.
#[derive(Debug)]
pub enum AuthError {
    /// Unknown email, or a password that the stored hash does not accept.
    InvalidCredentials,
    /// The account is locked until a later time.
    AccountLocked,
    /// The account is disabled.
    AccountDisabled,
    /// Hashing the new password failed.
    PasswordHash(HashFailure),
}

/// The message shown for an error.
pub open spec fn auth_error_text(e: AuthError) -> Seq<char> {
    match e {
        AuthError::InvalidCredentials => "Invalid email or password"@,
        AuthError::AccountLocked => "Account temporarily locked"@,
        AuthError::AccountDisabled => "Account is disabled"@,
        AuthError::PasswordHash(f) => hash_failure_text(f),
    }
}

impl AuthError {
    /// The message shown to the user.
    pub fn message(&self) -> (text: String)
        ensures
            text@ == auth_error_text(*self),
    {
        match self {
            AuthError::InvalidCredentials => String::from_str("Invalid email or password"),
            AuthError::AccountLocked => String::from_str("Account temporarily locked"),
            AuthError::AccountDisabled => String::from_str("Account is disabled"),
            AuthError::PasswordHash(f) => f.message(),
        }
    }
}

/// The row that registration inserts into the `users` table.
#[derive(Debug)]
pub struct NewUser {
    pub email: String,
    pub username: String,
    pub password_hash: String,
}

/// A registration row for the given email, username and password: the email
/// and username as given, and a password hash that accepts the password.
pub open spec fn is_registration_of(
    row: NewUser,
    email: Seq<char>,
    username: Seq<char>,
    password: Seq<char>,
) -> bool {
    &&& row.email@ == email
    &&& row.username@ == username
    &&& hash_accepts(password, row.password_hash@)
}

/// Builds the registration row from the outcome of hashing the password:
/// the email, the username and the hash when hashing succeeded, otherwise
/// the hashing failure.
pub fn registration_row(
    email: String,
    username: String,
    hashed: Result<String, HashFailure>,
) -> (r: Result<NewUser, AuthError>)
    ensures
        hashed is Ok <==> r is Ok,
        r matches Ok(row) ==> row.email@ == email@ && row.username@ == username@
            && row.password_hash@ == hashed->Ok_0@,
        r matches Err(e) ==> e == AuthError::PasswordHash(hashed->Err_0),
{
    match hashed {
        Ok(password_hash) => Ok(NewUser { email, username, password_hash }),
        Err(f) => Err(AuthError::PasswordHash(f)),
    }
}

/// Prepares a new account: hashes the password (with a random salt) and
/// builds the row to insert.
pub fn register(email: String, username: String, password: String) -> (r: Result<
    NewUser,
    AuthError,
>)
    ensures
        r is Ok,
        r matches Ok(row) ==> is_registration_of(row, email@, username@, password@),
{
    let hashed = bcrypt_hash(password.as_str());
    registration_row(email, username, hashed)
}

/// How long an account stays locked after too many failed logins: fifteen
/// minutes, in nanoseconds.
pub open spec fn lock_duration() -> int {
    900_000_000_000
}

/// The number of consecutive failed logins that locks an account.
pub open spec fn max_failed_logins() -> int {
    5
}

/// The columns that a login attempt writes back to the account.
#[derive(Debug, Clone, Copy, PartialEq, Eq, Structural)]
pub struct AccountUpdate {
    pub failed_login_attempts: i32,
    pub locked_until: Option<Timestamp>,
    pub last_login_at: Option<Timestamp>,
}

/// The result of a login attempt and the account columns it writes, if any.
pub struct LoginAttempt {
    pub outcome: Result<uuid::Uuid, AuthError>,
    pub update: Option<AccountUpdate>,
}

/// The account is locked at `now`: its lock ends later.
pub open spec fn is_locked(u: User, now: Timestamp) -> bool {
    u.locked_until matches Some(t) && t > now
}

/// The outcome of a login attempt for the account found by email (if any) at
/// time `now`: a locked account is refused before the password is checked;
/// an unknown email and a rejected password give the same error; a disabled
/// account is refused after a correct password; otherwise the account's id.
pub open spec fn login_outcome(user: Option<User>, password: Seq<char>, now: Timestamp) -> Result<
    uuid::Uuid,
    AuthError,
> {
    match user {
        None => Err(AuthError::InvalidCredentials),
        Some(u) => if is_locked(u, now) {
            Err(AuthError::AccountLocked)
        } else if !hash_accepts(password, u.password_hash@) {
            Err(AuthError::InvalidCredentials)
        } else if !u.is_active {
            Err(AuthError::AccountDisabled)
        } else {
            Ok(u.unid)
        },
    }
}

/// The columns written by a login attempt. A rejected password raises the
/// failed-login count and, when it reaches the limit, locks the account for
/// the lock duration from `now` (a count already at `i32::MAX` cannot be
/// raised and nothing is written); a successful login resets the count,
/// clears the lock and records `now` as the last login. Other attempts write
/// nothing.
pub open spec fn login_update(user: Option<User>, password: Seq<char>, now: Timestamp) -> Option<
    AccountUpdate,
> {
    match user {
        None => None,
        Some(u) => if is_locked(u, now) {
            None
        } else if !hash_accepts(password, u.password_hash@) {
            if u.failed_login_attempts == i32::MAX {
                None
            } else {
                let failed = u.failed_login_attempts + 1;
                Some(
                    AccountUpdate {
                        failed_login_attempts: failed as i32,
                        locked_until: if failed >= max_failed_logins() {
                            Some((now + lock_duration()) as i128)
                        } else {
                            u.locked_until
                        },
                        last_login_at: u.last_login_at,
                    },
                )
            }
        } else if !u.is_active {
            None
        } else {
            Some(
                AccountUpdate {
                    failed_login_attempts: 0,
                    locked_until: None,
                    last_login_at: Some(now),
                },
            )
        },
    }
}

/// Decides a login at time `now` for the account found by email, and the
/// account columns to write back.
pub fn login(user: Option<User>, password: String, now: Timestamp) -> (r: LoginAttempt)
    requires
        now + lock_duration() <= i128::MAX,
    ensures
        r.outcome == login_outcome(user, password@, now),
        r.update == login_update(user, password@, now),
{
    match user {
        None => LoginAttempt { outcome: Err(AuthError::InvalidCredentials), update: None },
        Some(u) => {
            let locked = match u.locked_until {
                Some(t) => t > now,
                None => false,
            };
            if locked {
                return LoginAttempt { outcome: Err(AuthError::AccountLocked), update: None };
            }
            let hash = u.password_hash.as_str();
            let accepted = printable_ascii(hash) && bcrypt_verify(password.as_str(), hash);
            if !accepted {
                let update = if u.failed_login_attempts == i32::MAX {
                    None
                } else {
                    let failed = u.failed_login_attempts + 1;
                    Some(
                        AccountUpdate {
                            failed_login_attempts: failed,
                            locked_until: if failed >= 5 {
                                Some(now + 900_000_000_000)
                            } else {
                                u.locked_until
                            },
                            last_login_at: u.last_login_at,
                        },
                    )
                };
                return LoginAttempt { outcome: Err(AuthError::InvalidCredentials), update };
            }
            if !u.is_active {
                return LoginAttempt { outcome: Err(AuthError::AccountDisabled), update: None };
            }
            LoginAttempt {
                outcome: Ok(u.unid),
                update: Some(
                    AccountUpdate {
                        failed_login_attempts: 0,
                        locked_until: None,
                        last_login_at: Some(now),
                    },
                ),
            }
        },
    }
}

/// A password given at registration logs in: for an active, unlocked
/// account whose stored hash is the one registration produced, login with
/// the same password yields the account's id and resets the failure state.
pub proof fn lemma_registered_password_logs_in(
    row: NewUser,
    email: Seq<char>,
    username: Seq<char>,
    password: Seq<char>,
    user: User,
    now: Timestamp,
)
    requires
        is_registration_of(row, email, username, password),
        user.password_hash@ == row.password_hash@,
        user.is_active,
        !is_locked(user, now),
    ensures
        login_outcome(Some(user), password, now) == Ok::<uuid::Uuid, AuthError>(user.unid),
        login_update(Some(user), password, now) == Some(
            AccountUpdate { failed_login_attempts: 0, locked_until: None, last_login_at: Some(now) },
        ),
{
}

/// A failed login does not reveal whether the email exists: for an unlocked
/// account, a rejected password gives the same error as an unknown email.
pub proof fn lemma_login_failure_uniform(user: User, password: Seq<char>, now: Timestamp)
    requires
        !is_locked(user, now),
        !hash_accepts(password, user.password_hash@),
    ensures
        login_outcome(Some(user), password, now) == login_outcome(None, password, now),
        login_outcome(None, password, now) == Err::<uuid::Uuid, AuthError>(
            AuthError::InvalidCredentials,
        ),
{
}

/// A locked account is refused whatever the password, and nothing is written.
pub proof fn lemma_locked_account_refused(user: User, password: Seq<char>, now: Timestamp)
    requires
        is_locked(user, now),
    ensures
        login_outcome(Some(user), password, now) == Err::<uuid::Uuid, AuthError>(
            AuthError::AccountLocked,
        ),
        login_update(Some(user), password, now) is None,
{
}

/// A disabled account is refused even with the right password, and nothing
/// is written.
pub proof fn lemma_disabled_account_refused(user: User, password: Seq<char>, now: Timestamp)
    requires
        !is_locked(user, now),
        hash_accepts(password, user.password_hash@),
        !user.is_active,
    ensures
        login_outcome(Some(user), password, now) == Err::<uuid::Uuid, AuthError>(
            AuthError::AccountDisabled,
        ),
        login_update(Some(user), password, now) is None,
{
}

/// A rejected password on an unlocked account raises the failed-login count
/// by one and keeps the last login; it sets a fifteen-minute lock from `now`
/// exactly when the raised count is five or more, and otherwise keeps the
/// account's lock as it was (so an account without a lock stays without one).
/// A count already at `i32::MAX` writes nothing. The outcome is the
/// invalid-credentials error in every case.
pub proof fn lemma_rejected_password_update(user: User, password: Seq<char>, now: Timestamp)
    requires
        now + 900_000_000_000 <= i128::MAX,
        !is_locked(user, now),
        !hash_accepts(password, user.password_hash@),
    ensures
        login_outcome(Some(user), password, now) == Err::<uuid::Uuid, AuthError>(
            AuthError::InvalidCredentials,
        ),
        user.failed_login_attempts == i32::MAX ==> login_update(Some(user), password, now)
            is None,
        user.failed_login_attempts < i32::MAX ==> {
            let upd = login_update(Some(user), password, now);
            &&& upd is Some
            &&& upd->0.failed_login_attempts == user.failed_login_attempts + 1
            &&& upd->0.last_login_at == user.last_login_at
            &&& user.failed_login_attempts + 1 >= 5 ==> upd->0.locked_until == Some(
                (now + 900_000_000_000) as i128,
            )
            &&& user.failed_login_attempts + 1 < 5 ==> upd->0.locked_until == user.locked_until
        },
{
}

/// Every rejected password that brings the failed-login count to five or more
/// locks the account: once the written lock is in place, every login within
/// the next fifteen minutes is refused as locked, whatever the password.
pub proof fn lemma_failures_lock_account(
    user: User,
    password: Seq<char>,
    now: Timestamp,
    later: User,
    other_password: Seq<char>,
    t: Timestamp,
)
    requires
        now + 900_000_000_000 <= i128::MAX,
        !is_locked(user, now),
        !hash_accepts(password, user.password_hash@),
        4 <= user.failed_login_attempts < i32::MAX,
        later.locked_until == login_update(Some(user), password, now)->0.locked_until,
        now <= t < now + 900_000_000_000,
    ensures
        login_update(Some(user), password, now)->0.failed_login_attempts
            == user.failed_login_attempts + 1,
        login_outcome(Some(later), other_password, t) == Err::<uuid::Uuid, AuthError>(
            AuthError::AccountLocked,
        ),
{
}

/// Fewer than five failures never lock an account that had no lock: after a
/// rejected password that leaves the count below five, the next login with
/// the right password on that account is not refused as locked.
pub proof fn lemma_failures_below_limit_do_not_lock(
    user: User,
    password: Seq<char>,
    now: Timestamp,
    later: User,
    right_password: Seq<char>,
    t: Timestamp,
)
    requires
        now + 900_000_000_000 <= i128::MAX,
        user.locked_until is None,
        !hash_accepts(password, user.password_hash@),
        user.failed_login_attempts + 1 < 5,
        later.locked_until == login_update(Some(user), password, now)->0.locked_until,
        later.is_active,
        hash_accepts(right_password, later.password_hash@),
    ensures
        login_update(Some(user), password, now)->0.locked_until is None,
        login_outcome(Some(later), right_password, t) == Ok::<uuid::Uuid, AuthError>(later.unid),
{
}

} // verus!
