use vstd::prelude::*;

verus! {

/// `uuid::Uuid`, carried through as an opaque value.
#[verifier::external_type_specification]
#[verifier::external_body]
pub struct ExUuid(uuid::Uuid);

/// A point in time: nanoseconds since the Unix epoch, UTC.
pub type Timestamp = i128;

/// A stored password hash. Its text is private: it is read through
/// `as_str`, and the type neither prints nor serializes.
pub struct PasswordHash {
    hash: String,
}

impl View for PasswordHash {
    type V = Seq<char>;

    closed spec fn view(&self) -> Seq<char> {
        self.hash@
    }
}

impl PasswordHash {
    /// Wraps a stored hash.
    pub fn new(hash: String) -> (h: PasswordHash)
        ensures
            h@ == hash@,
    {
        PasswordHash { hash }
    }

    /// The hash text.
    pub fn as_str(&self) -> (s: &str)
        ensures
            s@ == self@,
    {
        self.hash.as_str()
    }

    /// Unwraps the hash text.
    pub fn into_string(self) -> (s: String)
        ensures
            s@ == self@,
    {
        self.hash
    }
}

/// A registered account, as stored in the `users` table.
pub struct User {
    pub unid: uuid::Uuid,
    pub email: String,
    pub username: String,
    pub password_hash: PasswordHash,
    pub is_active: bool,
    pub role: String,
    pub first_name: Option<String>,
    pub last_name: Option<String>,
    pub created_at: Timestamp,
    pub updated_at: Timestamp,
    pub last_login_at: Option<Timestamp>,
    pub last_password_change_at: Option<Timestamp>,
    pub failed_login_attempts: i32,
    pub locked_until: Option<Timestamp>,
}

impl User {
    /// A loaded user is always an authenticated session user.
    pub fn is_authenticated(&self) -> (b: bool)
        ensures
            b,
    {
        true
    }

    /// Whether the account is enabled: its `is_active` column.
    pub fn is_active(&self) -> (b: bool)
        ensures
            b == self.is_active,
    {
        self.is_active
    }

    /// A loaded user is never the anonymous user.
    pub fn is_anonymous(&self) -> (b: bool)
        ensures
            !b,
    {
        false
    }
}

} // verus!
