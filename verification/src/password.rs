use vstd::prelude::*;

verus! {

/// Why hashing a password failed: the variants of `pwhash::error::Error`.
#[derive(Debug, Clone, PartialEq, Eq)]
pub enum HashFailure {
    /// The random salt could not be generated; the source's message.
    RandomError(String),
    /// Some component of the hash string holds an invalid character.
    EncodingError,
    /// An encoded value is too short.
    InsufficientLength,
    /// The number of rounds is out of range.
    InvalidRounds,
    /// The hash string is not in the expected format.
    InvalidHashString,
}

/// The display text of a hashing failure.
pub open spec fn hash_failure_text(f: HashFailure) -> Seq<char> {
    match f {
        HashFailure::RandomError(m) => m@,
        HashFailure::EncodingError => "Invalid encoding"@,
        HashFailure::InsufficientLength => "Encoded value is too short"@,
        HashFailure::InvalidRounds => "Invalid rounds value"@,
        HashFailure::InvalidHashString => "Invalid hash string"@,
    }
}

impl HashFailure {
    /// The display text of the failure, as the hashing crate shows it.
    pub fn message(&self) -> (text: String)
        ensures
            text@ == hash_failure_text(*self),
    {
        match self {
            HashFailure::RandomError(m) => m.clone(),
            HashFailure::EncodingError => String::from_str("Invalid encoding"),
            HashFailure::InsufficientLength => String::from_str("Encoded value is too short"),
            HashFailure::InvalidRounds => String::from_str("Invalid rounds value"),
            HashFailure::InvalidHashString => String::from_str("Invalid hash string"),
        }
    }
}

/// Every character is printable ASCII (space through `~`).
pub open spec fn is_printable_ascii(s: Seq<char>) -> bool {
    forall|i: int| 0 <= i < s.len() ==> 0x20 <= (#[trigger] s[i]) as u32 <= 0x7E
}

/// What `pwhash::bcrypt::verify` answers for a password and a stored hash.
pub uninterp spec fn bcrypt_verifies(password: Seq<char>, hash: Seq<char>) -> bool;

/// A stored hash accepts a password: it is printable ASCII and bcrypt
/// verification of the password against it succeeds.
pub open spec fn hash_accepts(password: Seq<char>, hash: Seq<char>) -> bool {
    is_printable_ascii(hash) && bcrypt_verifies(password, hash)
}

/// Calls `pwhash::bcrypt::hash`: hashes the password with a fresh random salt
/// at the default cost, and hands its error over variant by variant. In the
/// crate's source the call always returns `Ok` (a failing entropy source
/// panics instead of returning an error). The hash text depends on the salt,
/// so only what holds of every outcome is stated: the hash is printable ASCII
/// (`$2b$10$`, then bcrypt base64) and verifies the same password.
#[verifier::external_body]
pub(crate) fn bcrypt_hash(password: &str) -> (r: Result<String, HashFailure>)
    ensures
        r is Ok,
        r matches Ok(h) ==> hash_accepts(password@, h@),
{
    pwhash::bcrypt::hash(password).map_err(|e| match e {
        pwhash::error::Error::RandomError(m) => HashFailure::RandomError(m),
        pwhash::error::Error::EncodingError => HashFailure::EncodingError,
        pwhash::error::Error::InsufficientLength => HashFailure::InsufficientLength,
        pwhash::error::Error::InvalidRounds => HashFailure::InvalidRounds,
        pwhash::error::Error::InvalidHashString => HashFailure::InvalidHashString,
    })
}

/// Calls `pwhash::bcrypt::verify`: whether the password matches the stored
/// hash. A deterministic function of both arguments, named `bcrypt_verifies`.
/// The crate panics on some hashes holding characters outside printable
/// ASCII (an index past its decoding table), so only printable-ASCII hashes
/// are passed.
#[verifier::external_body]
pub(crate) fn bcrypt_verify(password: &str, hash: &str) -> (ok: bool)
    requires
        is_printable_ascii(hash@),
    ensures
        ok == bcrypt_verifies(password@, hash@),
{
    pwhash::bcrypt::verify(password, hash)
}

/// Checks that every character of `s` is printable ASCII.
pub(crate) fn printable_ascii(s: &str) -> (b: bool)
    ensures
        b == is_printable_ascii(s@),
{
    let n = s.unicode_len();
    let mut i: usize = 0;
    while i < n
        invariant
            n == s@.len(),
            i <= n,
            forall|k: int| 0 <= k < i ==> 0x20 <= (#[trigger] s@[k]) as u32 <= 0x7E,
        decreases n - i,
    {
        let c = s.get_char(i);
        if (c as u32) < 0x20 || (c as u32) > 0x7E {
            return false;
        }
        i = i + 1;
    }
    true
}

} // verus!
