use vstd::prelude::*;

use argon2::password_hash::rand_core::{OsRng, RngCore};
use argon2::password_hash::{Error as PhcError, SaltString};
use argon2::{PasswordHasher, PasswordVerifier};

verus! {

#[verifier::external_type_specification]
#[verifier::external_body]
pub struct ExPhcError(PhcError);

/// Whether Argon2 accepts `password` against the PHC-encoded hash `phc`:
/// the string parses, and recomputing the digest with its algorithm,
/// parameters and salt gives its digest.
pub uninterp spec fn argon2_accepts(password: Seq<char>, phc: Seq<char>) -> bool;

/// Number of random bytes in a password salt.
pub const SALT_LEN: usize = 16;

/// Fewest salt bytes that the salt encoding takes without panicking; Argon2
/// itself refuses fewer than 8.
pub const MIN_SALT_BYTES: usize = 3;

/// Longest password, in characters, that is always hashed: its UTF-8 form
/// stays within Argon2's limit of `u32::MAX` bytes.
pub const MAX_PASSWORD_CHARS: usize = 0x3FFF_FFFF;

/// Why a password could not be hashed.
#[derive(Debug, Clone, Copy, PartialEq, Eq, Structural)]
pub enum HashError {
    /// The operating system's random source gave no salt.
    NoEntropy,
    /// The hashing function refused the password or the salt.
    Rejected,
}

/// Relies on `RngCore::try_fill_bytes` of `OsRng`: `len` bytes from the
/// operating system's random source, or `None` when it fails.
#[verifier::external_body]
fn os_random_bytes(len: usize) -> (r: Option<Vec<u8>>)
    ensures
        r matches Some(b) ==> b@.len() == len,
{
    let mut bytes = vec![0u8; len];
    match OsRng.try_fill_bytes(&mut bytes) {
        Ok(()) => Some(bytes),
        Err(_) => None,
    }
}

/// Relies on `SaltString::encode_b64` and `PasswordHasher::hash_password` of
/// `Argon2::default()`. The PHC string produced is accepted by
/// `PasswordVerifier::verify_password` for the same password. Hashing fails
/// only for a password over `u32::MAX` bytes or a salt under 8 or over 48
/// bytes, so a 16-byte salt and a password of at most `MAX_PASSWORD_CHARS`
/// characters always succeed. A salt under 3 bytes encodes to fewer than the
/// 4 characters that `SaltString::as_salt` insists on, and it panics.
#[verifier::external_body]
fn argon2_hash(password: &str, salt: &Vec<u8>) -> (r: Result<String, PhcError>)
    requires
        salt@.len() >= MIN_SALT_BYTES,
    ensures
        r matches Ok(h) ==> argon2_accepts(password@, h@),
        salt@.len() == SALT_LEN && password@.len() <= MAX_PASSWORD_CHARS ==> r is Ok,
{
    let salt = SaltString::encode_b64(salt)?;
    argon2::Argon2::default().hash_password(password.as_bytes(), &salt).map(|h| h.to_string())
}

/// Relies on `PasswordHash::new` and `PasswordVerifier::verify_password` of
/// `Argon2::default()`: `Ok` exactly when the encoded hash parses and
/// matches the password.
#[verifier::external_body]
fn argon2_verify(password: &str, phc: &str) -> (r: Result<(), PhcError>)
    ensures
        r is Ok <==> argon2_accepts(password@, phc@),
{
    let parsed = argon2::PasswordHash::new(phc)?;
    argon2::Argon2::default().verify_password(password.as_bytes(), &parsed)
}

/// Hashes `password` with the given salt bytes into a self-describing PHC
/// string, which `verify_password` accepts for that password.
pub fn hash_password_with_salt(password: &str, salt: &Vec<u8>) -> (r: Result<String, HashError>)
    requires
        salt@.len() >= MIN_SALT_BYTES,
    ensures
        r matches Ok(h) ==> argon2_accepts(password@, h@),
        salt@.len() == SALT_LEN && password@.len() <= MAX_PASSWORD_CHARS ==> r is Ok,
        r is Err ==> r == Err::<String, HashError>(HashError::Rejected),
{
    match argon2_hash(password, salt) {
        Ok(h) => Ok(h),
        Err(_) => Err(HashError::Rejected),
    }
}

/// Hashes `password` with a fresh random salt. Every password of at most
/// `MAX_PASSWORD_CHARS` characters is hashed unless the system has no
/// entropy to give.
pub fn hash_password(password: String) -> (r: Result<String, HashError>)
    ensures
        r matches Ok(h) ==> argon2_accepts(password@, h@),
        password@.len() <= MAX_PASSWORD_CHARS ==> r != Err::<String, HashError>(HashError::Rejected),
{
    match os_random_bytes(SALT_LEN) {
        Some(salt) => hash_password_with_salt(password.as_str(), &salt),
        None => Err(HashError::NoEntropy),
    }
}

/// Checks `password` against a stored PHC string. A malformed string and a
/// wrong password both give `false`.
pub fn verify_password(password: &str, phc: &str) -> (r: bool)
    ensures
        r == argon2_accepts(password@, phc@),
{
    argon2_verify(password, phc).is_ok()
}

} // verus!
