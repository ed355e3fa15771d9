//! Password hashing with Argon2 (default parameters, random salt, PHC strings).
use vstd::prelude::*;
use crate::application::dto::apperror::{AppError, Fault};
use crate::application::services::access::outcome;
use crate::text::byte_len;
use argon2::password_hash::SaltString;
use argon2::password_hash::rand_core::{OsRng, RngCore};
use argon2::{PasswordHasher, PasswordVerifier};

verus! {

/// What checking `password` against the PHC string `hash` with Argon2 gives:
/// `Err` with the message when the string does not parse as a PHC string,
/// `Ok(true)` when the password matches it, `Ok(false)` otherwise.
pub uninterp spec fn argon2_verdict(hash: Seq<char>, password: Seq<char>) -> Result<bool, Seq<char>>;

/// The longest password that Argon2 hashes, in bytes (`argon2::MAX_PWD_LEN`).
pub open spec fn max_password_len() -> nat {
    0xFFFF_FFFF
}

/// `RngCore::fill_bytes` of the operating system's random source on 16
/// bytes, the length of the salts that `SaltString::generate` draws.
#[verifier::external_body]
fn random_salt() -> (r: Vec<u8>)
    ensures
        r@.len() == 16,
{
    let mut bytes = [0u8; 16];
    OsRng.fill_bytes(&mut bytes);
    bytes.to_vec()
}

/// `PasswordHasher::hash_password` of `Argon2::default()` under the salt
/// (encoded with `SaltString::encode_b64`), as a PHC string, or the error's
/// message.  A string it produces parses, and the password it was made from
/// verifies against it (Argon2 recomputes the hash with the parameters and
/// salt that the string records).  With a salt of 8 to 48 bytes the only
/// error left is a password longer than `MAX_PWD_LEN` bytes.  A salt under 3
/// bytes encodes to fewer than the 4 characters a `Salt` needs and panics.
#[verifier::external_body]
fn argon2_hash(password: &str, salt: &[u8]) -> (r: Result<String, String>)
    requires
        salt@.len() >= 3,
    ensures
        match r {
            Ok(h) => argon2_verdict(h@, password@) == Ok::<bool, Seq<char>>(true),
            Err(_) => true,
        },
        8 <= salt@.len() <= 48 && byte_len(password@) <= max_password_len() ==> r is Ok,
{
    match SaltString::encode_b64(salt) {
        Ok(s) => argon2::Argon2::default().hash_password(password.as_bytes(), &s).map(|h| h.to_string()).map_err(
            |e| e.to_string(),
        ),
        Err(e) => Err(e.to_string()),
    }
}

/// `PasswordHash::new` on the stored string, then
/// `PasswordVerifier::verify_password` of `Argon2::default()`; any error of
/// the second call counts as a mismatch.
#[verifier::external_body]
fn argon2_verify(hash: &str, password: &str) -> (r: Result<bool, String>)
    ensures
        match r {
            Ok(b) => argon2_verdict(hash@, password@) == Ok::<bool, Seq<char>>(b),
            Err(e) => argon2_verdict(hash@, password@) == Err::<bool, Seq<char>>(e@),
        },
{
    match argon2::PasswordHash::new(hash) {
        Ok(parsed) => Ok(argon2::Argon2::default().verify_password(password.as_bytes(), &parsed).is_ok()),
        Err(e) => Err(e.to_string()),
    }
}

/// Hashes a password under a fresh random salt of 16 bytes; the hash
/// verifies the password.  Every password of at most `MAX_PWD_LEN` bytes is
/// hashed.
pub fn hash_password(password: &str) -> (r: Result<String, AppError>)
    ensures
        match r {
            Ok(h) => argon2_verdict(h@, password@) == Ok::<bool, Seq<char>>(true),
            Err(e) => e@ is InternalServerError,
        },
        byte_len(password@) <= max_password_len() ==> r is Ok,
{
    let salt = random_salt();
    match argon2_hash(password, salt.as_slice()) {
        Ok(h) => Ok(h),
        Err(m) => Err(AppError::InternalServerError(m)),
    }
}

/// The answer to a password given against a stored hash: an unreadable hash
/// is an internal error, a wrong password is refused.
pub open spec fn password_check(hash: Seq<char>, password: Seq<char>) -> Result<(), Fault> {
    match argon2_verdict(hash, password) {
        Err(m) => Err(Fault::InternalServerError(m)),
        Ok(false) => Err(Fault::Unauthorized("Invalid username or password"@)),
        Ok(true) => Ok(()),
    }
}

/// Checks a password against a stored hash.
pub fn check_password(hash: &str, password: &str) -> (r: Result<(), AppError>)
    ensures
        outcome(r) == password_check(hash@, password@),
{
    match argon2_verify(hash, password) {
        Err(m) => Err(AppError::InternalServerError(m)),
        Ok(false) => Err(AppError::Unauthorized("Invalid username or password".to_owned())),
        Ok(true) => Ok(()),
    }
}

} // verus!
