use vstd::prelude::*;

use crate::cipher::{aes_gcm_decrypt, aes_gcm_encrypt, aes_gcm_seal, MAX_PLAINTEXT_LEN, TAG_LEN};
use crate::codec::{
    ciphertext_of, decode_vault_file, encode_vault_file, file_layout, nonce_of, salt_of,
    VaultFile, HEADER_LEN, NONCE_LEN, SALT_LEN,
};
use crate::error::VaultError;
use crate::kdf::{argon2_key, derive_key, password_accepted, KEY_LEN};
use crate::random::random_bytes;

verus! {

/// The stored bytes of a payload sealed under a key with a salt and a nonce.
pub open spec fn sealed_file(key: Seq<u8>, salt: Seq<u8>, nonce: Seq<u8>, payload: Seq<u8>) -> Seq<
    u8,
> {
    file_layout(salt, nonce, aes_gcm_seal(key, nonce, payload))
}

/// The stored bytes of a payload sealed under a password with a salt and a nonce.
pub open spec fn sealed_with_password(
    password: Seq<char>,
    salt: Seq<u8>,
    nonce: Seq<u8>,
    payload: Seq<u8>,
) -> Seq<u8> {
    sealed_file(argon2_key(password, salt), salt, nonce, payload)
}

/// The ciphertext of a stored file is the encryption of some payload, of a
/// length that AES-GCM accepts, under the key and the file's nonce.
pub open spec fn authenticates(key: Seq<u8>, bytes: Seq<u8>) -> bool {
    exists|p: Seq<u8>|
        p.len() <= MAX_PLAINTEXT_LEN && ciphertext_of(bytes) == #[trigger] aes_gcm_seal(
            key,
            nonce_of(bytes),
            p,
        )
}

/// Encrypts a payload under a derived key and lays out salt, nonce and
/// ciphertext as stored. Only a payload too long for AES-GCM fails.
pub fn seal_with_key(key: &Vec<u8>, salt: Vec<u8>, nonce: Vec<u8>, payload: &Vec<u8>) -> (r:
    Result<Vec<u8>, VaultError>)
    requires
        key.len() == KEY_LEN,
        salt.len() == SALT_LEN,
        nonce.len() == NONCE_LEN,
    ensures
        r is Ok <==> payload@.len() <= MAX_PLAINTEXT_LEN,
        r is Ok ==> r->Ok_0@ == sealed_file(key@, salt@, nonce@, payload@),
        r is Ok ==> r->Ok_0@.len() == HEADER_LEN + payload@.len() + TAG_LEN,
        r is Err ==> r->Err_0 == VaultError::Crypto,
{
    match aes_gcm_encrypt(key, &nonce, payload) {
        Ok(ciphertext) => {
            let file = VaultFile { salt, nonce, ciphertext };
            Ok(encode_vault_file(&file))
        },
        Err(_) => Err(VaultError::Crypto),
    }
}

/// Decrypts the parts of a stored file under a derived key.
fn open_parts(key: &Vec<u8>, file: &VaultFile, bytes: &Vec<u8>) -> (r: Result<Vec<u8>, VaultError>)
    requires
        key.len() == KEY_LEN,
        file.wf(),
        bytes.len() >= HEADER_LEN,
        file.nonce@ == nonce_of(bytes@),
        file.ciphertext@ == ciphertext_of(bytes@),
    ensures
        r is Ok || r == Err::<Vec<u8>, VaultError>(VaultError::Authentication),
        r is Ok ==> ciphertext_of(bytes@) == aes_gcm_seal(key@, nonce_of(bytes@), r->Ok_0@),
        r is Ok ==> r->Ok_0@.len() + HEADER_LEN + TAG_LEN == bytes.len(),
        bytes.len() < HEADER_LEN + TAG_LEN ==> r is Err,
        authenticates(key@, bytes@) ==> r is Ok,
        forall|salt: Seq<u8>, nonce: Seq<u8>, payload: Seq<u8>|
            salt.len() == SALT_LEN && nonce.len() == NONCE_LEN && payload.len() <= MAX_PLAINTEXT_LEN
                && bytes@ == #[trigger] sealed_file(key@, salt, nonce, payload) ==> (r is Ok
                && r->Ok_0@ == payload),
{
    let r = match aes_gcm_decrypt(key, &file.nonce, &file.ciphertext) {
        Ok(plaintext) => Ok(plaintext),
        Err(_) => Err(VaultError::Authentication),
    };
    assert forall|salt: Seq<u8>, nonce: Seq<u8>, payload: Seq<u8>|
        salt.len() == SALT_LEN && nonce.len() == NONCE_LEN && payload.len() <= MAX_PLAINTEXT_LEN
            && bytes@ == #[trigger] sealed_file(key@, salt, nonce, payload) implies (r is Ok
        && r->Ok_0@ == payload) by {
        crate::codec::lemma_layout_round_trip(salt, nonce, aes_gcm_seal(key@, nonce, payload));
    }
    r
}

/// Reads a stored file and decrypts its ciphertext under a derived key.
/// A short file is a format error; a ciphertext that does not authenticate is
/// an authentication error; what authenticates is returned.
pub fn open_with_key(key: &Vec<u8>, bytes: &Vec<u8>) -> (r: Result<Vec<u8>, VaultError>)
    requires
        key.len() == KEY_LEN,
    ensures
        bytes.len() < HEADER_LEN <==> r == Err::<Vec<u8>, VaultError>(VaultError::Format),
        bytes.len() >= HEADER_LEN ==> r is Ok || r == Err::<Vec<u8>, VaultError>(
            VaultError::Authentication,
        ),
        r is Ok ==> ciphertext_of(bytes@) == aes_gcm_seal(key@, nonce_of(bytes@), r->Ok_0@),
        r is Ok ==> r->Ok_0@.len() + HEADER_LEN + TAG_LEN == bytes.len(),
        bytes.len() < HEADER_LEN + TAG_LEN ==> r is Err,
        bytes.len() >= HEADER_LEN && authenticates(key@, bytes@) ==> r is Ok,
        forall|salt: Seq<u8>, nonce: Seq<u8>, payload: Seq<u8>|
            salt.len() == SALT_LEN && nonce.len() == NONCE_LEN && payload.len() <= MAX_PLAINTEXT_LEN
                && bytes@ == #[trigger] sealed_file(key@, salt, nonce, payload) ==> (r is Ok
                && r->Ok_0@ == payload),
{
    let file = match decode_vault_file(bytes) {
        Ok(f) => f,
        Err(e) => {
            return Err(e);
        },
    };
    open_parts(key, &file, bytes)
}

/// Seals a payload under a password with the given salt and nonce: derives the
/// key, encrypts, and lays out the file. It fails only for a password too long
/// for Argon2 or a payload too long for AES-GCM.
pub fn seal_vault_with(password: &str, payload: &Vec<u8>, salt: Vec<u8>, nonce: Vec<u8>) -> (r:
    Result<Vec<u8>, VaultError>)
    requires
        salt.len() == SALT_LEN,
        nonce.len() == NONCE_LEN,
    ensures
        r is Ok <==> password_accepted(password) && payload@.len() <= MAX_PLAINTEXT_LEN,
        r is Ok ==> r->Ok_0@ == sealed_with_password(password@, salt@, nonce@, payload@),
        r is Ok ==> r->Ok_0@.len() == HEADER_LEN + payload@.len() + TAG_LEN,
        r is Err ==> r->Err_0 == VaultError::Crypto,
{
    let key = match derive_key(password, &salt) {
        Ok(k) => k,
        Err(e) => {
            return Err(e);
        },
    };
    seal_with_key(&key, salt, nonce, payload)
}

/// Seals a payload under a password with a fresh random salt and nonce. It
/// fails only for a password too long for Argon2 or a payload too long for
/// AES-GCM.
pub fn seal_vault(password: &str, payload: &Vec<u8>) -> (r: Result<Vec<u8>, VaultError>)
    ensures
        r is Ok <==> password_accepted(password) && payload@.len() <= MAX_PLAINTEXT_LEN,
        r is Ok ==> exists|salt: Seq<u8>, nonce: Seq<u8>|
            salt.len() == SALT_LEN && nonce.len() == NONCE_LEN && r->Ok_0@
                == #[trigger] sealed_with_password(password@, salt, nonce, payload@),
        r is Ok ==> r->Ok_0@.len() == HEADER_LEN + payload@.len() + TAG_LEN,
        r is Err ==> r->Err_0 == VaultError::Crypto,
{
    let salt = random_bytes(SALT_LEN);
    let nonce = random_bytes(NONCE_LEN);
    let ghost s = salt@;
    let ghost n = nonce@;
    let r = seal_vault_with(password, payload, salt, nonce);
    proof {
        if r is Ok {
            assert(r->Ok_0@ == sealed_with_password(password@, s, n, payload@));
        }
    }
    r
}

/// Opens stored bytes with a password: checks the length, derives the key from
/// the stored salt, and decrypts. A short file is a format error whatever it
/// holds; a password too long for Argon2 is a crypto error; a ciphertext that
/// does not authenticate under the derived key is an authentication error.
pub fn open_vault(password: &str, bytes: &Vec<u8>) -> (r: Result<Vec<u8>, VaultError>)
    ensures
        bytes.len() < HEADER_LEN <==> r == Err::<Vec<u8>, VaultError>(VaultError::Format),
        bytes.len() >= HEADER_LEN && password_accepted(password) ==> r is Ok || r == Err::<
            Vec<u8>,
            VaultError,
        >(VaultError::Authentication),
        r == Err::<Vec<u8>, VaultError>(VaultError::Crypto) ==> !password_accepted(password),
        r is Ok ==> ciphertext_of(bytes@) == aes_gcm_seal(
            argon2_key(password@, salt_of(bytes@)),
            nonce_of(bytes@),
            r->Ok_0@,
        ),
        r is Ok ==> r->Ok_0@.len() + HEADER_LEN + TAG_LEN == bytes.len(),
        bytes.len() < HEADER_LEN + TAG_LEN ==> r is Err,
        r == Err::<Vec<u8>, VaultError>(VaultError::Authentication) ==> bytes.len() >= HEADER_LEN
            && !authenticates(argon2_key(password@, salt_of(bytes@)), bytes@),
        bytes.len() >= HEADER_LEN && password_accepted(password) && authenticates(
            argon2_key(password@, salt_of(bytes@)),
            bytes@,
        ) ==> r is Ok,
        forall|salt: Seq<u8>, nonce: Seq<u8>, payload: Seq<u8>|
            salt.len() == SALT_LEN && nonce.len() == NONCE_LEN && payload.len() <= MAX_PLAINTEXT_LEN
                && password_accepted(password) && bytes@
                == #[trigger] sealed_with_password(password@, salt, nonce, payload) ==> (r is Ok
                && r->Ok_0@ == payload),
{
    let file = match decode_vault_file(bytes) {
        Ok(f) => f,
        Err(e) => {
            return Err(e);
        },
    };
    let key = match derive_key(password, &file.salt) {
        Ok(k) => k,
        Err(e) => {
            return Err(e);
        },
    };
    let r = open_parts(&key, &file, bytes);
    assert forall|salt: Seq<u8>, nonce: Seq<u8>, payload: Seq<u8>|
        salt.len() == SALT_LEN && nonce.len() == NONCE_LEN && payload.len() <= MAX_PLAINTEXT_LEN
            && password_accepted(password) && bytes@
            == #[trigger] sealed_with_password(password@, salt, nonce, payload) implies (r is Ok
        && r->Ok_0@ == payload) by {
        crate::codec::lemma_layout_round_trip(
            salt,
            nonce,
            aes_gcm_seal(argon2_key(password@, salt), nonce, payload),
        );
        assert(sealed_file(key@, salt, nonce, payload) == bytes@);
    }
    r
}

} // verus!
