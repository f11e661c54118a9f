//! User records and the credential checks on them.
//!
//! Passwords are hashed and checked by the `argon2` crate. The three functions
//! that call it are trusted: their contracts restate what that crate's source
//! and documentation show and are not proved here. Everything built on them
//! is.

use argon2::password_hash::rand_core::OsRng;
use argon2::password_hash::{PasswordHash, PasswordHasher, PasswordVerifier, SaltString};
use argon2::Argon2;
use vstd::prelude::*;
use vstd::utf8::encode_utf8;

use crate::models::phc::{lanes_fit, lanes_in_bounds};

verus! {

/// `argon2::password_hash::Error`. Which variant came back is never read: the
/// library maps any of them to a [`PasswordError`] by the call that failed.
#[verifier::external_type_specification]
#[verifier::external_body]
pub struct ExPasswordHashError(argon2::password_hash::Error);

/// Whether `PasswordHash::new` accepts `hash` as a PHC string.
pub uninterp spec fn phc_well_formed(hash: Seq<char>) -> bool;

/// Whether `hash` parses as a PHC string and `Argon2::default()` accepts
/// `password` for it in `verify_password`. The call is made, and the name
/// tied to it, only for a hash that passes [`lanes_fit`].
pub uninterp spec fn argon2_accepts(password: Seq<char>, hash: Seq<char>) -> bool;

/// The opening of every hash made with the default parameters: argon2id,
/// version 19, 19456 KiB of memory, two passes, one lane.
pub open spec fn default_opening() -> Seq<char> {
    "$argon2id$v=19$m=19456,t=2,p=1$"@
}

/// Draws a salt of sixteen random bytes with `SaltString::generate` on the
/// operating system's generator, hashes the password's bytes under it with
/// `Argon2::default().hash_password` and renders the result as a PHC string.
///
/// Trusted, from the source of both crates:
/// - With a salt of that length and the default parameters the call refuses
///   only a password of more than `0xFFFF_FFFF` bytes.
/// - The string opens with the algorithm, version and default parameters.
///   Its one lanes parameter is therefore `1`, and the salt and the digest
///   that follow are Base64 and hold no parameter: it passes [`lanes_fit`].
/// - The string parses as a PHC string and verifies against the same
///   password: verification recomputes the hash with the parameters and the
///   salt that the string holds.
///
/// The salt differs from call to call, and so does the string; nothing is
/// claimed of the rest of it.
#[verifier::external_body]
fn hash_with_fresh_salt(password: &str) -> (r: Result<String, argon2::password_hash::Error>)
    ensures
        encode_utf8(password@).len() <= 0xFFFF_FFFF ==> r is Ok,
        r matches Ok(hash) ==> {
            &&& default_opening().is_prefix_of(hash@)
            &&& phc_well_formed(hash@)
            &&& lanes_fit(hash@)
            &&& argon2_accepts(password@, hash@)
        },
{
    let salt = SaltString::generate(&mut OsRng);
    match Argon2::default().hash_password(password.as_bytes(), &salt) {
        Ok(hash) => Ok(hash.to_string()),
        Err(e) => Err(e),
    }
}

/// Calls `PasswordHash::new` and reports whether it accepted the string.
#[verifier::external_body]
fn phc_parses(hash: &str) -> (ok: bool)
    ensures
        ok == phc_well_formed(hash@),
{
    PasswordHash::new(hash).is_ok()
}

/// Parses `hash` with `PasswordHash::new` and checks `password` against it
/// with `Argon2::default().verify_password`.
///
/// The verifier multiplies the lanes parameter of the hash by eight in 32
/// bits before it checks it, which overflows from 2^29 on. The caller must
/// have seen that the parameter has at most eight digits.
///
/// Trusted: the answer is a function of the two strings alone.
#[verifier::external_body]
fn verify_parsed(password: &str, hash: &str) -> (accepted: bool)
    requires
        lanes_fit(hash@),
    ensures
        accepted == argon2_accepts(password@, hash@),
{
    match PasswordHash::new(hash) {
        Ok(parsed) => Argon2::default().verify_password(password.as_bytes(), &parsed).is_ok(),
        Err(_) => false,
    }
}

/// Why a credential operation failed.
#[derive(Debug, Clone, Copy, PartialEq, Eq, Structural)]
pub enum PasswordError {
    /// The stored hash is not a PHC string.
    MalformedHash,
    /// The hashing function reported an error.
    HashingFailed,
}

/// A stored user. `id` is the record's opaque identifier in its text form;
/// timestamps are microseconds since the Unix epoch.
#[derive(Debug, Clone, PartialEq, Eq)]
pub struct User {
    pub id: String,
    pub email: String,
    pub name: Option<String>,
    pub avatar_url: Option<String>,
    pub password_hash: String,
    pub created_at: i64,
    pub updated_at: i64,
}

/// What a caller supplies to register a user.
#[derive(Debug, Clone)]
pub struct CreateUser {
    pub email: String,
    pub password: String,
    pub name: Option<String>,
}

/// The row handed to the store for insertion: the plaintext password is gone,
/// its hash stands in its place. The store adds the id and the timestamps.
#[derive(Debug, Clone, PartialEq, Eq)]
pub struct NewUser {
    pub email: String,
    pub name: Option<String>,
    pub password_hash: String,
}

/// The values handed to the store to replace a user's password.
#[derive(Debug, Clone, PartialEq, Eq)]
pub struct PasswordUpdate {
    pub id: String,
    pub password_hash: String,
}

impl NewUser {
    /// The row for `create_user` once its password has been hashed to
    /// `password_hash`.
    pub fn new(create_user: CreateUser, password_hash: String) -> (row: NewUser)
        ensures
            row.email == create_user.email,
            row.name == create_user.name,
            row.password_hash == password_hash,
    {
        NewUser { email: create_user.email, name: create_user.name, password_hash }
    }
}

impl User {
    /// What checking `password` against the stored `hash` yields: an error if
    /// the hash is not a PHC string; a refusal if its lanes parameter has
    /// more digits than any hash that can verify; else whether the verifier
    /// accepts the password.
    pub open spec fn check(hash: Seq<char>, password: Seq<char>) -> Result<bool, PasswordError> {
        if !phc_well_formed(hash) {
            Err(PasswordError::MalformedHash)
        } else if !lanes_fit(hash) {
            Ok(false)
        } else {
            Ok(argon2_accepts(password, hash))
        }
    }

    /// The longest password, in bytes, that the hash function takes.
    pub open spec fn hashable(password: Seq<char>) -> bool {
        encode_utf8(password).len() <= 0xFFFF_FFFF
    }

    /// Hashes `password` under a salt drawn for this call.
    ///
    /// Succeeds on every password the hash function takes. The hash differs
    /// from call to call. Whatever it is, it names the algorithm and its
    /// parameters and verifies against `password`.
    pub(crate) fn hash_password(password: &str) -> (r: Result<String, PasswordError>)
        ensures
            User::hashable(password@) ==> r is Ok,
            r matches Ok(hash) ==> User::hashes(hash@, password@),
            r matches Err(e) ==> e == PasswordError::HashingFailed,
    {
        match hash_with_fresh_salt(password) {
            Ok(hash) => Ok(hash),
            Err(_) => Err(PasswordError::HashingFailed),
        }
    }

    /// What holds of a hash made of `password`: it opens with the algorithm,
    /// version and default parameters, and checking `password` against it
    /// succeeds.
    pub open spec fn hashes(hash: Seq<char>, password: Seq<char>) -> bool {
        &&& default_opening().is_prefix_of(hash)
        &&& User::check(hash, password) == Ok::<bool, PasswordError>(true)
    }

    /// Checks `password` against this user's stored hash. A wrong password is
    /// `Ok(false)`, not an error; only a stored hash that does not parse is.
    /// A hash whose lanes parameter is out of bounds verifies nothing and is
    /// not shown to the verifier.
    pub fn verify_password(&self, password: &str) -> (r: Result<bool, PasswordError>)
        ensures
            r == User::check(self.password_hash@, password@),
    {
        let hash = self.password_hash.as_str();
        if !phc_parses(hash) {
            Err(PasswordError::MalformedHash)
        } else if !lanes_in_bounds(hash) {
            Ok(false)
        } else {
            Ok(verify_parsed(password, hash))
        }
    }

    /// Prepares the row for a new user: hashes the password and keeps email
    /// and name. The caller inserts the row; the store rejects a taken email.
    ///
    /// Succeeds on every password the hash function takes.
    pub fn create(create_user: CreateUser) -> (r: Result<NewUser, PasswordError>)
        ensures
            User::hashable(create_user.password@) ==> r is Ok,
            match r {
                Ok(row) => {
                    &&& row.email == create_user.email
                    &&& row.name == create_user.name
                    &&& User::hashes(row.password_hash@, create_user.password@)
                },
                Err(e) => e == PasswordError::HashingFailed,
            },
    {
        match User::hash_password(create_user.password.as_str()) {
            Ok(hash) => Ok(NewUser::new(create_user, hash)),
            Err(e) => Err(e),
        }
    }

    /// Decides a login from what the lookup by email found.
    ///
    /// A missing user and a wrong password give the same `Ok(None)`. The user
    /// comes back only if the password verifies. A stored hash that does not
    /// parse is an error and never authenticates.
    pub fn authenticate(found: Option<User>, password: &str) -> (r: Result<
        Option<User>,
        PasswordError,
    >)
        ensures
            r == User::authenticated(found, password@),
    {
        match found {
            Some(user) => {
                match user.verify_password(password) {
                    Ok(true) => Ok(Some(user)),
                    Ok(false) => Ok(None),
                    Err(e) => Err(e),
                }
            },
            None => Ok(None),
        }
    }

    /// The outcome of [`User::authenticate`].
    pub open spec fn authenticated(found: Option<User>, password: Seq<char>) -> Result<
        Option<User>,
        PasswordError,
    > {
        match found {
            Some(user) => match User::check(user.password_hash@, password) {
                Ok(true) => Ok(found),
                Ok(false) => Ok(None),
                Err(e) => Err(e),
            },
            None => Ok(None),
        }
    }

    /// Prepares a password change for the user `id`: hashes the new password.
    /// The caller writes the update.
    ///
    /// Succeeds on every password the hash function takes.
    pub fn update_password(id: String, new_password: &str) -> (r: Result<
        PasswordUpdate,
        PasswordError,
    >)
        ensures
            User::hashable(new_password@) ==> r is Ok,
            match r {
                Ok(update) => {
                    &&& update.id == id
                    &&& User::hashes(update.password_hash@, new_password@)
                },
                Err(e) => e == PasswordError::HashingFailed,
            },
    {
        match User::hash_password(new_password) {
            Ok(password_hash) => Ok(PasswordUpdate { id, password_hash }),
            Err(e) => Err(e),
        }
    }
}

/// A hash that verifies against one password is well formed, so checking any
/// other password against it gives a verdict and never an error.
pub proof fn lemma_verifying_hash_gives_verdicts(
    hash: Seq<char>,
    password: Seq<char>,
    other: Seq<char>,
)
    requires
        User::check(hash, password) == Ok::<bool, PasswordError>(true),
    ensures
        User::check(hash, other) is Ok,
        User::check(hash, other) == Ok::<bool, PasswordError>(argon2_accepts(other, hash)),
{
}

} // verus!
