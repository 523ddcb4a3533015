use vstd::prelude::*;

use crate::error::VaultError;

verus! {

/// Bytes of salt at the start of a vault file.
pub const SALT_LEN: usize = 16;

/// Bytes of nonce after the salt.
pub const NONCE_LEN: usize = 12;

/// Bytes before the ciphertext: salt and nonce.
pub const HEADER_LEN: usize = 28;

/// The three parts of a persisted vault.
pub struct VaultFile {
    pub salt: Vec<u8>,
    pub nonce: Vec<u8>,
    pub ciphertext: Vec<u8>,
}

impl VaultFile {
    /// Salt and nonce have their fixed sizes.
    pub open spec fn wf(&self) -> bool {
        &&& self.salt.len() == SALT_LEN
        &&& self.nonce.len() == NONCE_LEN
    }
}

/// The layout on disk: salt, then nonce, then ciphertext, nothing else.
pub open spec fn file_layout(salt: Seq<u8>, nonce: Seq<u8>, ciphertext: Seq<u8>) -> Seq<u8> {
    salt + nonce + ciphertext
}

/// The salt of a file long enough to hold one.
pub open spec fn salt_of(bytes: Seq<u8>) -> Seq<u8> {
    bytes.subrange(0, SALT_LEN as int)
}

/// The nonce of a file long enough to hold a header.
pub open spec fn nonce_of(bytes: Seq<u8>) -> Seq<u8> {
    bytes.subrange(SALT_LEN as int, HEADER_LEN as int)
}

/// What follows the header.
pub open spec fn ciphertext_of(bytes: Seq<u8>) -> Seq<u8> {
    bytes.subrange(HEADER_LEN as int, bytes.len() as int)
}

/// Laying out a salt and a nonce of the fixed sizes and any ciphertext,
/// then reading the file back by its fixed offsets, gives the same three parts.
pub proof fn lemma_layout_round_trip(salt: Seq<u8>, nonce: Seq<u8>, ciphertext: Seq<u8>)
    requires
        salt.len() == SALT_LEN,
        nonce.len() == NONCE_LEN,
    ensures
        file_layout(salt, nonce, ciphertext).len() >= HEADER_LEN,
        salt_of(file_layout(salt, nonce, ciphertext)) == salt,
        nonce_of(file_layout(salt, nonce, ciphertext)) == nonce,
        ciphertext_of(file_layout(salt, nonce, ciphertext)) == ciphertext,
{
    let b = file_layout(salt, nonce, ciphertext);
    assert(salt_of(b) =~= salt);
    assert(nonce_of(b) =~= nonce);
    assert(ciphertext_of(b) =~= ciphertext);
}

fn append_bytes(out: &mut Vec<u8>, src: &Vec<u8>)
    ensures
        final(out)@ == old(out)@ + src@,
{
    let mut i: usize = 0;
    while i < src.len()
        invariant
            i <= src.len(),
            out@ == old(out)@ + src@.subrange(0, i as int),
        decreases src.len() - i,
    {
        out.push(src[i]);
        i = i + 1;
    }
    assert(src@.subrange(0, src.len() as int) =~= src@);
}

fn copy_range(bytes: &Vec<u8>, start: usize, end: usize) -> (r: Vec<u8>)
    requires
        start <= end <= bytes.len(),
    ensures
        r@ == bytes@.subrange(start as int, end as int),
{
    let mut r: Vec<u8> = Vec::new();
    let mut i: usize = start;
    while i < end
        invariant
            start <= i <= end <= bytes.len(),
            r@ == bytes@.subrange(start as int, i as int),
        decreases end - i,
    {
        r.push(bytes[i]);
        i = i + 1;
        assert(r@ =~= bytes@.subrange(start as int, i as int));
    }
    r
}

/// Lays the parts out as they are stored: salt, nonce, ciphertext, with no
/// header, length prefix or version byte.
pub fn encode_vault_file(file: &VaultFile) -> (r: Vec<u8>)
    ensures
        r@ == file_layout(file.salt@, file.nonce@, file.ciphertext@),
{
    let mut out: Vec<u8> = Vec::new();
    append_bytes(&mut out, &file.salt);
    append_bytes(&mut out, &file.nonce);
    append_bytes(&mut out, &file.ciphertext);
    assert(out@ =~= file_layout(file.salt@, file.nonce@, file.ciphertext@));
    out
}

/// Splits stored bytes at the fixed offsets; a file shorter than a salt and a
/// nonce is refused.
pub fn decode_vault_file(bytes: &Vec<u8>) -> (r: Result<VaultFile, VaultError>)
    ensures
        bytes.len() < HEADER_LEN <==> r is Err,
        r is Err ==> r->Err_0 == VaultError::Format,
        r is Ok ==> {
            let f = r->Ok_0;
            &&& f.wf()
            &&& f.salt@ == salt_of(bytes@)
            &&& f.nonce@ == nonce_of(bytes@)
            &&& f.ciphertext@ == ciphertext_of(bytes@)
        },
{
    if bytes.len() < HEADER_LEN {
        return Err(VaultError::Format);
    }
    let salt = copy_range(bytes, 0, SALT_LEN);
    let nonce = copy_range(bytes, SALT_LEN, HEADER_LEN);
    let ciphertext = copy_range(bytes, HEADER_LEN, bytes.len());
    Ok(VaultFile { salt, nonce, ciphertext })
}

} // verus!
