//! Password hashing and checking, done by argon2.

use argon2::password_hash::rand_core::{OsRng, RngCore};
use argon2::password_hash::{PasswordHash, PasswordHasher, PasswordVerifier, SaltString};
use argon2::Argon2;
use vstd::prelude::*;

verus! {

/// Whether argon2, with the parameters and salt that `hash` spells out,
/// derives `hash`'s digest from `password`; false where `hash` does not parse.
pub uninterp spec fn password_matches(password: Seq<char>, hash: Seq<char>) -> bool;

/// Relies on argon2's `PasswordHash::new` and `PasswordVerifier::verify_password`
/// (default `Argon2`): checks `password` against a stored PHC hash string,
/// failing closed where the string does not parse.
#[verifier::external_body]
pub(crate) fn check_password(password: &str, hash: &str) -> (r: bool)
    ensures
        r == password_matches(password@, hash@),
{
    match PasswordHash::new(hash) {
        Ok(parsed) => Argon2::default().verify_password(password.as_bytes(), &parsed).is_ok(),
        Err(_) => false,
    }
}

/// Relies on rand_core's `OsRng::try_fill_bytes`: sixteen bytes from the
/// operating system's random source, `None` where it fails. Nothing is
/// promised of the bytes.
#[verifier::external_body]
fn fresh_salt() -> (r: Option<[u8; 16]>) {
    let mut bytes = [0u8; 16];
    OsRng.try_fill_bytes(&mut bytes).ok()?;
    Some(bytes)
}

/// Relies on argon2's `SaltString::encode_b64` and
/// `PasswordHasher::hash_password` (default `Argon2`): the PHC hash string of
/// `password` under `salt`, which `verify_password` accepts for that same
/// password; `None` where hashing fails.
#[verifier::external_body]
fn hash_with_salt(password: &str, salt: &[u8; 16]) -> (r: Option<String>)
    ensures
        r matches Some(h) ==> password_matches(password@, h@),
{
    let salt = SaltString::encode_b64(salt).ok()?;
    Argon2::default().hash_password(password.as_bytes(), &salt).ok().map(|h| h.to_string())
}

/// A fresh salted hash of `password`; `None` where the random source or the
/// hashing fails.
pub fn hash_password(password: &str) -> (r: Option<String>)
    ensures
        r matches Some(h) ==> password_matches(password@, h@),
{
    match fresh_salt() {
        Some(salt) => hash_with_salt(password, &salt),
        None => None,
    }
}

} // verus!
