//! User accounts: what is stored for a new user, and when a password is
//! accepted.

use vstd::prelude::*;

verus! {

/// Rounds of key derivation for a stored password.
pub const HASH_ITERATIONS: u32 = 10000;

/// Why a request on a user account failed.
#[derive(Clone, Copy, Debug, PartialEq, Eq, Structural)]
pub enum Error {
    EmptyPassword,
    MissingLastFMCredentials,
    Unspecified,
}

/// A user row as it is stored.
#[derive(Clone, Debug, PartialEq, Eq)]
pub struct User {
    pub name: String,
    pub password_hash: String,
    pub admin: i32,
}

/// What a query for one row came back with.
#[derive(Clone, Debug, PartialEq, Eq)]
pub enum Lookup<T> {
    Found(T),
    NotFound,
    Failed,
}

/// Whether `pbkdf2::pbkdf2_check` accepts `password` for `hashed_value`.
pub uninterp spec fn pbkdf2_check_ok(password: Seq<char>, hashed_value: Seq<char>) -> bool;

/// Calls `pbkdf2::pbkdf2_simple`, which salts at random, so nothing says which
/// string comes back: only that, where one does, `pbkdf2::pbkdf2_check` accepts
/// the same password for it. `None` stands for a failure of the random source.
#[verifier::external_body]
fn pbkdf2_simple(password: &str, rounds: u32) -> (hashed: Option<String>)
    ensures
        hashed matches Some(h) ==> pbkdf2_check_ok(password@, h@),
{
    pbkdf2::pbkdf2_simple(password, rounds).ok()
}

/// Calls `pbkdf2::pbkdf2_check`: `true` where it returns `Ok`, `false` on a
/// mismatch and on a hash in another format.
#[verifier::external_body]
fn pbkdf2_check(password: &str, hashed_value: &str) -> (accepted: bool)
    ensures
        accepted == pbkdf2_check_ok(password@, hashed_value@),
{
    pbkdf2::pbkdf2_check(password, hashed_value).is_ok()
}

/// Hashes a password for storage, with a fresh salt.
pub fn hash_password(password: &str) -> (hashed: Result<String, Error>)
    ensures
        hashed matches Ok(h) ==> pbkdf2_check_ok(password@, h@),
        hashed matches Err(e) ==> e == Error::Unspecified,
{
    match pbkdf2_simple(password, HASH_ITERATIONS) {
        Some(hash) => Ok(hash),
        None => Err(Error::Unspecified),
    }
}

/// Whether the attempted password is the one that was hashed.
pub fn verify_password(password_hash: &str, attempted_password: &str) -> (accepted: bool)
    ensures
        accepted == pbkdf2_check_ok(attempted_password@, password_hash@),
{
    pbkdf2_check(attempted_password, password_hash)
}

/// The row of a new user, given what hashing the password came to.
pub fn new_user(username: &str, password: &str, hashed: Result<String, Error>) -> (row: Result<
    User,
    Error,
>)
    ensures
        password@.len() == 0 ==> row == Err::<User, Error>(Error::EmptyPassword),
        password@.len() > 0 ==> match hashed {
            Ok(h) => row matches Ok(user) && user.name@ == username@ && user.password_hash == h
                && user.admin == 0,
            Err(e) => row == Err::<User, Error>(e),
        },
{
    if password.is_empty() {
        return Err(Error::EmptyPassword);
    }
    match hashed {
        Ok(password_hash) => Ok(User { name: username.to_owned(), password_hash, admin: 0 }),
        Err(e) => Err(e),
    }
}

/// What a login comes to, given what the query for the user's hash came back
/// with and, for a known user, whether the password verified against it.
pub fn auth_outcome(stored: &Lookup<String>, verified: bool) -> (accepted: Result<bool, Error>)
    ensures
        accepted == match *stored {
            Lookup::Found(_) => Ok::<bool, Error>(verified),
            Lookup::NotFound => Ok::<bool, Error>(false),
            Lookup::Failed => Err::<bool, Error>(Error::Unspecified),
        },
{
    match stored {
        Lookup::Found(_) => Ok(verified),
        Lookup::NotFound => Ok(false),
        Lookup::Failed => Err(Error::Unspecified),
    }
}

/// The decisions on user accounts. Storage is the caller's.
pub struct Manager {}

impl Manager {
    pub fn new() -> (manager: Self) {
        Manager {  }
    }

    /// The row to store for a new user: never one for an empty password, never
    /// an administrator, and with a hash that the password verifies against.
    pub fn create_user(&self, username: &str, password: &str) -> (row: Result<User, Error>)
        ensures
            password@.len() == 0 ==> row == Err::<User, Error>(Error::EmptyPassword),
            password@.len() > 0 ==> match row {
                Ok(user) => user.name@ == username@ && user.admin == 0 && pbkdf2_check_ok(
                    password@,
                    user.password_hash@,
                ),
                Err(e) => e == Error::Unspecified,
            },
    {
        if password.is_empty() {
            return Err(Error::EmptyPassword);
        }
        let hashed = hash_password(password);
        new_user(username, password, hashed)
    }

    /// The hash to store for a new password.
    pub fn set_password(&self, password: &str) -> (hashed: Result<String, Error>)
        ensures
            hashed matches Ok(h) ==> pbkdf2_check_ok(password@, h@),
            hashed matches Err(e) ==> e == Error::Unspecified,
    {
        hash_password(password)
    }

    /// Whether a login is accepted, given what the query for the user's hash
    /// came back with: never for an unknown user, and for a known one exactly
    /// when the password verifies against the stored hash.
    pub fn auth(&self, stored: &Lookup<String>, password: &str) -> (accepted: Result<bool, Error>)
        ensures
            accepted == match *stored {
                Lookup::Found(hash) => Ok::<bool, Error>(pbkdf2_check_ok(password@, hash@)),
                Lookup::NotFound => Ok::<bool, Error>(false),
                Lookup::Failed => Err::<bool, Error>(Error::Unspecified),
            },
    {
        let verified = match stored {
            Lookup::Found(hash) => verify_password(hash.as_str(), password),
            _ => false,
        };
        auth_outcome(stored, verified)
    }

    /// Whether a user exists, given the rows that bear the name.
    pub fn user_exists(&self, results: &Vec<String>) -> (found: bool)
        ensures
            found == (results@.len() > 0),
    {
        results.len() > 0
    }

    /// Whether the stored flag marks an administrator.
    pub fn is_admin(&self, admin: i32) -> (is_admin: bool)
        ensures
            is_admin == (admin != 0),
    {
        admin != 0
    }

    /// The stored session key, or the error of a user who never linked one.
    pub fn get_lastfm_session_key(&self, token: Option<String>) -> (key: Result<String, Error>)
        ensures
            key == match token {
                Some(t) => Ok::<String, Error>(t),
                None => Err::<String, Error>(Error::MissingLastFMCredentials),
            },
    {
        match token {
            Some(t) => Ok(t),
            None => Err(Error::MissingLastFMCredentials),
        }
    }

    /// Whether a session key is stored.
    pub fn is_lastfm_linked(&self, token: &Option<String>) -> (linked: bool)
        ensures
            linked == token.is_some(),
    {
        token.is_some()
    }
}

} // verus!
