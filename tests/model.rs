use secure_vault::{chars_of, Entry, GeneratorError, Vault, VaultError};

#[test]
fn vault_keeps_entry_order() {
    let e = |t: &str| Entry {
        title: t.to_string(),
        username: String::new(),
        password_hash: String::new(),
        url: String::new(),
        notes: String::new(),
        folder: String::new(),
    };
    let v = Vault { entries: vec![e("b"), e("a")] };
    assert_eq!(v.clone(), v);
    assert_eq!(v.entries[0].title, "b");
}

#[test]
fn chars_of_keeps_every_char() {
    assert_eq!(chars_of("héllo"), vec!['h', 'é', 'l', 'l', 'o']);
}

#[test]
fn error_messages() {
    assert_eq!(VaultError::Authentication.message(), "Decryption failed. Wrong password?");
}

#[test]
fn generator_error_messages() {
    assert_eq!(GeneratorError::EmptyCharset.message(), "Error: Empty charset");
    assert_eq!(GeneratorError::EmptyWordList.message(), "Error: Wordlist is empty");
    assert_eq!(VaultError::Format.message(), "File too short to be a valid vault");
}
