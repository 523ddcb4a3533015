//! An encrypted credential vault: the on-disk envelope (salt, nonce and
//! authenticated ciphertext), key derivation from a password, and the
//! password and passphrase generators with a strength estimate.
use vstd::prelude::*;

pub mod cipher;
pub mod codec;
pub mod error;
pub mod generator;
pub mod kdf;
pub mod model;
pub mod passphrase;
pub mod random;
pub mod service;
pub mod strength;
pub mod text;

pub use codec::{decode_vault_file, encode_vault_file, VaultFile, HEADER_LEN, NONCE_LEN, SALT_LEN};
pub use error::{GeneratorError, VaultError};
pub use generator::{build_charset, generate_password};
pub use kdf::{derive_key, KEY_LEN};
pub use model::{Entry, Vault};
pub use passphrase::{generate_passphrase, generate_passphrase_from, WORDS};
pub use service::{open_vault, open_with_key, seal_vault, seal_vault_with, seal_with_key};
pub use strength::check_password_strength;
pub use text::chars_of;

verus! {

} // verus!
