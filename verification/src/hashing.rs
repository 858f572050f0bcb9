//! Password hashing for registration.
//!
//! A raw password is never stored: it is run through a salted, memory-hard
//! hashing function, and only the encoded result is kept. The encoding is a
//! PHC string, which always begins with a `$`-separated algorithm
//! identifier, so it is never the raw password of a well-formed request.

use vstd::prelude::*;
use argon2::Argon2;
use argon2::password_hash::PasswordHasher;

verus! {

/// The shape of a PHC-encoded hash: it begins with the `$` that introduces
/// the algorithm identifier.
pub open spec fn spec_is_phc_string(s: Seq<char>) -> bool {
    s.len() >= 1 && s[0] == '$'
}

/// Relies on argon2's `Argon2::default().hash_password`, which salts the
/// password with fresh operating-system randomness and encodes the digest as
/// a PHC string, and on that encoding's rendering, which always begins with
/// `$` and the algorithm identifier. The salt is random, so nothing more is
/// promised of the result; two calls on one password may differ.
#[verifier::external_body]
fn argon2_phc(pwd: &[u8]) -> (r: Option<String>)
    ensures
        r is Some ==> spec_is_phc_string(r->0@),
{
    match Argon2::default().hash_password(pwd) {
        Ok(hashed) => Some(hashed.to_string()),
        Err(_) => None,
    }
}

/// Hashes a raw password with a fresh random salt, yielding the encoded
/// hash string, or the fixed message when the hashing function fails.
pub fn make_hash(pwd: &[u8]) -> (r: Result<String, &'static str>)
    ensures
        r matches Ok(h) ==> spec_is_phc_string(h@),
        r matches Err(m) ==> m@ == "Error hashing password"@,
{
    match argon2_phc(pwd) {
        Some(hashed) => Ok(hashed),
        None => Err("Error hashing password"),
    }
}

} // verus!
