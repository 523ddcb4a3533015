use vstd::prelude::*;

verus! {

/// Why opening or sealing a vault failed.
#[derive(Debug, Clone, Copy, PartialEq, Eq, Structural)]
pub enum VaultError {
    /// The file is too short to hold a salt and a nonce.
    Format,
    /// Key derivation or encryption could not be carried out.
    Crypto,
    /// The ciphertext did not authenticate under the derived key:
    /// a wrong password or a damaged file.
    Authentication,
}

/// Why a generator could not produce a result.
#[derive(Debug, Clone, Copy, PartialEq, Eq, Structural)]
pub enum GeneratorError {
    /// Every candidate character was excluded.
    EmptyCharset,
    /// The word list holds no word.
    EmptyWordList,
}

impl VaultError {
    /// A message for the user.
    pub fn message(&self) -> (r: &'static str)
        ensures
            *self == VaultError::Format ==> r@ == "File too short to be a valid vault"@,
            *self == VaultError::Crypto ==> r@ == "Failed to derive key or encrypt"@,
            *self == VaultError::Authentication ==> r@ == "Decryption failed. Wrong password?"@,
    {
        match self {
            VaultError::Format => "File too short to be a valid vault",
            VaultError::Crypto => "Failed to derive key or encrypt",
            VaultError::Authentication => "Decryption failed. Wrong password?",
        }
    }
}

impl GeneratorError {
    /// A message for the user.
    pub fn message(&self) -> (r: &'static str)
        ensures
            *self == GeneratorError::EmptyCharset ==> r@ == "Error: Empty charset"@,
            *self == GeneratorError::EmptyWordList ==> r@ == "Error: Wordlist is empty"@,
    {
        match self {
            GeneratorError::EmptyCharset => "Error: Empty charset",
            GeneratorError::EmptyWordList => "Error: Wordlist is empty",
        }
    }
}

} // verus!
