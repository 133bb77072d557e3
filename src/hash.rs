use vstd::prelude::*;
use argon2::password_hash::rand_core::{OsRng, RngCore};
use argon2::password_hash::{PasswordHash, PasswordHasher, PasswordVerifier, Salt, SaltString};
use argon2::Argon2;

verus! {

#[verifier::external_type_specification]
#[verifier::external_body]
pub struct ExPasswordHashError(argon2::password_hash::Error);

/// What argon2 makes of `password` checked against the PHC string `phc`:
/// `None` where `phc` does not parse as a password hash, else whether the
/// password matches it.
pub uninterp spec fn argon2_verdict(password: Seq<char>, phc: Seq<char>) -> Option<bool>;

/// Relies on argon2's `Argon2::hash_password` (default Argon2id parameters)
/// with a salt of 16 bytes from the operating system's generator (`OsRng`'s
/// `try_fill_bytes`, encoded by `SaltString::encode_b64`): the PHC string it
/// returns embeds salt and parameters, so that argon2 verifies the same
/// password against it. The string parses as a password hash
/// (`PasswordHash::new` reads back what `to_string` wrote), whatever
/// password is later checked against it. A failing generator is an error,
/// not a panic.
#[verifier::external_body]
fn argon2_hash(password: &str) -> (r: Result<String, argon2::password_hash::Error>)
    ensures
        r matches Ok(phc) ==> argon2_verdict(password@, phc@) == Some(true),
        r matches Ok(phc) ==> forall|q: Seq<char>| #[trigger] argon2_verdict(q, phc@) is Some,
{
    let mut bytes = [0u8; Salt::RECOMMENDED_LENGTH];
    OsRng.try_fill_bytes(&mut bytes).map_err(|_| argon2::password_hash::Error::Crypto)?;
    let salt = SaltString::encode_b64(&bytes)?;
    Argon2::default().hash_password(password.as_bytes(), &salt).map(|h| h.to_string())
}

/// Relies on argon2's `PasswordHash::new`, which parses the PHC string, and
/// `Argon2::verify_password`, which recomputes the hash of `password` with the
/// parameters and salt found there and compares the digests in constant time.
#[verifier::external_body]
fn argon2_verify(password: &str, phc: &str) -> (r: Result<bool, argon2::password_hash::Error>)
    ensures
        r matches Ok(b) ==> argon2_verdict(password@, phc@) == Some(b),
        r is Err ==> argon2_verdict(password@, phc@) is None,
{
    let parsed = PasswordHash::new(phc)?;
    Ok(Argon2::default().verify_password(password.as_bytes(), &parsed).is_ok())
}

/// Why hashing or checking a password failed.
#[derive(Debug, Clone, Copy, PartialEq, Eq, Structural)]
pub enum HashError {
    /// The hash could not be computed (the random source or an allocation
    /// failed).
    Hashing,
    /// The stored string is not a well-formed password hash.
    MalformedHash,
}

/// `phc` is a hash of `password`: checking `password` against it succeeds,
/// and it is a well-formed hash against which every password can be checked.
pub open spec fn hash_of(password: Seq<char>, phc: Seq<char>) -> bool {
    &&& argon2_verdict(password, phc) == Some(true)
    &&& forall|q: Seq<char>| #[trigger] argon2_verdict(q, phc) is Some
}

/// Hashes a password with a fresh random salt into a self-describing string
/// (algorithm, parameters, salt, digest).
pub fn hash_password(password: &str) -> (r: Result<String, HashError>)
    ensures
        r matches Ok(phc) ==> hash_of(password@, phc@),
        r is Err ==> r == Err::<String, HashError>(HashError::Hashing),
{
    match argon2_hash(password) {
        Ok(phc) => Ok(phc),
        Err(_) => Err(HashError::Hashing),
    }
}

/// What checking `password` against the stored hash `phc` returns.
pub open spec fn password_check(password: Seq<char>, phc: Seq<char>) -> Result<bool, HashError> {
    match argon2_verdict(password, phc) {
        Some(b) => Ok(b),
        None => Err(HashError::MalformedHash),
    }
}

/// Checks a password against a stored hash: `Ok(true)` where it matches,
/// `Ok(false)` where it does not, and an error only where the stored string
/// is not a well-formed hash.
pub fn verify_password(password: &str, hash: &str) -> (r: Result<bool, HashError>)
    ensures
        r == password_check(password@, hash@),
{
    match argon2_verify(password, hash) {
        Ok(b) => Ok(b),
        Err(_) => Err(HashError::MalformedHash),
    }
}

/// A password checks out against every hash that `hash_password` made of it:
/// checking it there returns `Ok(true)`; and checking any other password
/// against that hash answers `Ok(_)`, never an error: a mismatch is
/// `Ok(false)`.
pub proof fn hash_then_verify(password: Seq<char>, phc: Seq<char>)
    requires
        hash_of(password, phc),
    ensures
        password_check(password, phc) == Ok::<bool, HashError>(true),
        forall|other: Seq<char>| #[trigger] password_check(other, phc) is Ok,
        forall|other: Seq<char>|
            argon2_verdict(other, phc) != Some(true) ==> #[trigger] password_check(other, phc) == Ok::<bool, HashError>(false),
{
    assert forall|other: Seq<char>| #[trigger] password_check(other, phc) is Ok by {
        assert(argon2_verdict(other, phc) is Some);
    }
}

} // verus!
