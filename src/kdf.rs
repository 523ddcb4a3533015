use vstd::prelude::*;

use crate::error::VaultError;
use vstd::string::StringSliceAdditionalSpecFns;

verus! {

/// Bytes of key material derived from a password.
pub const KEY_LEN: usize = 32;

/// A password short enough, in bytes, for Argon2 to hash.
pub open spec fn password_accepted(password: &str) -> bool {
    password.spec_bytes().len() <= MAX_INPUT_LEN
}

/// A password and a salt of lengths that Argon2 accepts.
pub open spec fn inputs_accepted(password: &str, salt: Seq<u8>) -> bool {
    &&& password_accepted(password)
    &&& MIN_SALT_LEN <= salt.len() <= MAX_INPUT_LEN
}

#[verifier::external_type_specification]
#[verifier::external_body]
pub struct ExArgon2Error(argon2::Error);

/// The key that Argon2 with its default parameters derives from a password
/// (as characters) and a salt.
pub uninterp spec fn argon2_key(password: Seq<char>, salt: Seq<u8>) -> Seq<u8>;

/// Bytes of salt below which Argon2 refuses to hash.
pub const MIN_SALT_LEN: usize = 8;

/// The longest password (in bytes) and salt that Argon2 accepts.
pub const MAX_INPUT_LEN: u64 = 0xFFFF_FFFF;

/// Relies on argon2::Argon2::hash_password_into with `Argon2::default()`:
/// it fills the 32-byte buffer with the hash of the password's bytes and the
/// salt, a function of those alone. Its only errors with these parameters and
/// a 32-byte output are a password or salt too long and a salt too short.
#[verifier::external_body]
fn argon2_hash(password: &str, salt: &Vec<u8>) -> (r: Result<Vec<u8>, argon2::Error>)
    ensures
        r is Ok ==> r->Ok_0@ == argon2_key(password@, salt@),
        r is Ok ==> r->Ok_0@.len() == KEY_LEN,
        r is Ok <==> inputs_accepted(password, salt@),
{
    let mut key = [0u8; 32];
    argon2::Argon2::default().hash_password_into(password.as_bytes(), salt, &mut key)?;
    Ok(key.to_vec())
}

/// Derives the vault key from a password and a salt. The same pair always
/// yields the same key; the password's content never makes it fail, only a
/// salt or password of a length that Argon2 refuses.
pub fn derive_key(password: &str, salt: &Vec<u8>) -> (r: Result<Vec<u8>, VaultError>)
    ensures
        r is Ok ==> r->Ok_0@ == argon2_key(password@, salt@),
        r is Ok ==> r->Ok_0@.len() == KEY_LEN,
        r is Err ==> r->Err_0 == VaultError::Crypto,
        r is Ok <==> inputs_accepted(password, salt@),
{
    match argon2_hash(password, salt) {
        Ok(key) => Ok(key),
        Err(_) => Err(VaultError::Crypto),
    }
}

/// Two keys derived from the same password and salt are equal.
pub proof fn lemma_derivation_deterministic(
    password: Seq<char>,
    salt: Seq<u8>,
    first: Seq<u8>,
    second: Seq<u8>,
)
    requires
        first == argon2_key(password, salt),
        second == argon2_key(password, salt),
    ensures
        first == second,
        first.len() == second.len(),
{
}

} // verus!
