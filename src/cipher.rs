use vstd::prelude::*;

use aes_gcm::aead::{Aead, KeyInit};

use crate::kdf::KEY_LEN;
use crate::codec::NONCE_LEN;

verus! {

/// The longest plaintext that AES-GCM encrypts: 2^36 bytes.
pub const MAX_PLAINTEXT_LEN: u64 = 68719476736;

/// Bytes of authentication tag appended to each ciphertext.
pub const TAG_LEN: usize = 16;

#[verifier::external_type_specification]
#[verifier::external_body]
pub struct ExAeadError(aes_gcm::Error);

/// The ciphertext, tag appended, that AES-256-GCM makes of a plaintext under a
/// key and a nonce.
pub uninterp spec fn aes_gcm_seal(key: Seq<u8>, nonce: Seq<u8>, plaintext: Seq<u8>) -> Seq<u8>;

/// Relies on aes_gcm::Aes256Gcm's `Aead::encrypt`: the ciphertext with the
/// tag appended, determined by key, nonce and plaintext. The tag adds 16
/// bytes; a plaintext longer than `MAX_PLAINTEXT_LEN` is refused, and that is
/// the only error.
#[verifier::external_body]
pub(crate) fn aes_gcm_encrypt(key: &Vec<u8>, nonce: &Vec<u8>, plaintext: &Vec<u8>) -> (r: Result<
    Vec<u8>,
    aes_gcm::Error,
>)
    requires
        key.len() == KEY_LEN,
        nonce.len() == NONCE_LEN,
    ensures
        r is Ok ==> r->Ok_0@ == aes_gcm_seal(key@, nonce@, plaintext@),
        r is Ok ==> r->Ok_0@.len() == plaintext@.len() + TAG_LEN,
        r is Ok <==> plaintext@.len() <= MAX_PLAINTEXT_LEN,
{
    let cipher = aes_gcm::Aes256Gcm::new(aes_gcm::Key::<aes_gcm::Aes256Gcm>::from_slice(key));
    cipher.encrypt(aes_gcm::Nonce::from_slice(nonce), plaintext.as_slice())
}

/// Relies on aes_gcm::Aes256Gcm's `Aead::decrypt`: it returns a plaintext only
/// when the tag authenticates, and then the ciphertext is that plaintext's
/// encryption; the encryption of a plaintext decrypts to it.
#[verifier::external_body]
pub(crate) fn aes_gcm_decrypt(key: &Vec<u8>, nonce: &Vec<u8>, ciphertext: &Vec<u8>) -> (r: Result<
    Vec<u8>,
    aes_gcm::Error,
>)
    requires
        key.len() == KEY_LEN,
        nonce.len() == NONCE_LEN,
    ensures
        r is Ok ==> ciphertext@ == aes_gcm_seal(key@, nonce@, r->Ok_0@),
        r is Ok ==> r->Ok_0@.len() + TAG_LEN == ciphertext@.len(),
        ciphertext@.len() < TAG_LEN ==> r is Err,
        forall|p: Seq<u8>|
            p.len() <= MAX_PLAINTEXT_LEN && ciphertext@ == #[trigger] aes_gcm_seal(key@, nonce@, p)
                ==> (r is Ok && r->Ok_0@ == p),
{
    let cipher = aes_gcm::Aes256Gcm::new(aes_gcm::Key::<aes_gcm::Aes256Gcm>::from_slice(key));
    cipher.decrypt(aes_gcm::Nonce::from_slice(nonce), ciphertext.as_slice())
}

} // verus!
