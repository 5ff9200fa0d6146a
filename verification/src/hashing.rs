use vstd::prelude::*;
use argon2::Argon2;
use argon2::PasswordHasher;
use argon2::PasswordVerifier;

use crate::errors::ServiceError;

verus! {

/// Whether `plaintext` matches the stored hash `stored`: the Argon2 digest
/// recomputed from the parameters and salt embedded in `stored` equals the
/// digest embedded there, and `false` for a malformed `stored`. A pure
/// function of its two arguments; it carries a name rather than a definition,
/// since writing it out would mean restating the whole Argon2id construction.
pub uninterp spec fn password_matches(plaintext: Seq<char>, stored: Seq<char>) -> bool;

/// Relies on argon2's `PasswordHasher::hash_password` (Argon2id, default
/// parameters, a fresh random salt per call) and the PHC string encoding of
/// its result: whatever salt was drawn, the returned string verifies against
/// `password`, which `PasswordVerifier` documents as the round trip of the
/// two calls. The rare failures (an overlong password, a random-source
/// failure) come back as `Err(Config)`, never as a panic.
#[verifier::external_body]
pub fn hash_password(password: &str) -> (r: Result<String, ServiceError>)
    ensures
        r matches Ok(h) ==> password_matches(password@, h@),
        r matches Err(e) ==> e == ServiceError::Config,
{
    match Argon2::default().hash_password(password.as_bytes()) {
        Ok(hash) => Ok(hash.to_string()),
        Err(_) => Err(ServiceError::Config),
    }
}

/// Relies on argon2's `PasswordVerifier::<str>::verify_password`: it decodes
/// the algorithm parameters and salt embedded in `hashed`, recomputes the
/// digest from `password`, and compares in constant time. A malformed
/// `hashed` is an error from the parser, never a panic, and reads as a
/// mismatch here, so corruption is not distinguishable from a wrong password.
#[verifier::external_body]
pub fn verify_password(password: &str, hashed: &str) -> (r: bool)
    ensures
        r == password_matches(password@, hashed@),
{
    Argon2::default().verify_password(password.as_bytes(), hashed).is_ok()
}

} // verus!
