use secure_vault::{
    decode_vault_file, derive_key, encode_vault_file, open_vault, open_with_key, seal_vault,
    seal_vault_with, seal_with_key, VaultError, VaultFile, HEADER_LEN,
};

fn payload() -> Vec<u8> {
    br#"{"entries":[{"title":"mail","username":"me","password_hash":"x","url":"","notes":"","folder":"work"}]}"#.to_vec()
}

#[test]
fn round_trip_with_correct_password() {
    let sealed = seal_vault("hunter2", &payload()).unwrap();
    assert_eq!(open_vault("hunter2", &sealed).unwrap(), payload());
}

#[test]
fn round_trip_of_empty_payload() {
    let sealed = seal_vault("pw", &Vec::new()).unwrap();
    assert_eq!(sealed.len(), HEADER_LEN + 16);
    assert_eq!(open_vault("pw", &sealed).unwrap(), Vec::<u8>::new());
}

#[test]
fn wrong_password_is_an_authentication_error() {
    let sealed = seal_vault("right", &payload()).unwrap();
    assert_eq!(open_vault("wrong", &sealed), Err(VaultError::Authentication));
}

#[test]
fn flipped_ciphertext_bit_is_an_authentication_error() {
    let sealed = seal_vault("pw", &payload()).unwrap();
    for pos in [HEADER_LEN, HEADER_LEN + 5, sealed.len() - 1] {
        let mut bad = sealed.clone();
        bad[pos] ^= 0x01;
        assert_eq!(open_vault("pw", &bad), Err(VaultError::Authentication));
    }
}

#[test]
fn short_file_is_a_format_error() {
    for n in [0usize, 1, 16, 27] {
        let bytes = vec![0xAAu8; n];
        assert_eq!(open_vault("pw", &bytes), Err(VaultError::Format));
    }
}

#[test]
fn header_only_file_fails_authentication() {
    let bytes = vec![0u8; HEADER_LEN];
    assert_eq!(open_vault("pw", &bytes), Err(VaultError::Authentication));
}

#[test]
fn derivation_is_deterministic() {
    let salt = vec![7u8; 16];
    let a = derive_key("pw", &salt).unwrap();
    let b = derive_key("pw", &salt).unwrap();
    assert_eq!(a.len(), 32);
    assert_eq!(a, b);
    let c = derive_key("pw", &vec![8u8; 16]).unwrap();
    assert_ne!(a, c);
}

#[test]
fn empty_password_derives_a_key() {
    let key = derive_key("", &vec![1u8; 16]).unwrap();
    assert_eq!(key.len(), 32);
    assert_ne!(key, vec![0u8; 32]);
}

#[test]
fn short_salt_fails_derivation() {
    assert_eq!(derive_key("pw", &vec![1u8; 4]), Err(VaultError::Crypto));
}

#[test]
fn two_saves_differ() {
    let a = seal_vault("pw", &payload()).unwrap();
    let b = seal_vault("pw", &payload()).unwrap();
    assert_ne!(a[0..16], b[0..16]);
    assert_ne!(a[16..28], b[16..28]);
    assert_ne!(a[28..], b[28..]);
}

#[test]
fn layout_is_salt_nonce_ciphertext() {
    let salt = vec![1u8; 16];
    let nonce = vec![2u8; 12];
    let sealed = seal_vault_with("pw", &payload(), salt.clone(), nonce.clone()).unwrap();
    assert_eq!(&sealed[0..16], &salt[..]);
    assert_eq!(&sealed[16..28], &nonce[..]);
    assert_eq!(sealed.len(), HEADER_LEN + payload().len() + 16);
    assert_ne!(&sealed[28..28 + payload().len()], &payload()[..]);
    let again = seal_vault_with("pw", &payload(), salt, nonce).unwrap();
    assert_eq!(sealed, again);
}

#[test]
fn seal_and_open_with_key() {
    let key = vec![9u8; 32];
    let sealed = seal_with_key(&key, vec![0u8; 16], vec![3u8; 12], &payload()).unwrap();
    assert_eq!(open_with_key(&key, &sealed).unwrap(), payload());
    assert_eq!(open_with_key(&vec![8u8; 32], &sealed), Err(VaultError::Authentication));
    assert_eq!(open_with_key(&key, &sealed[..20].to_vec()), Err(VaultError::Format));
}

#[test]
fn codec_round_trip() {
    let f = VaultFile { salt: vec![1u8; 16], nonce: vec![2u8; 12], ciphertext: vec![3u8, 4, 5] };
    let bytes = encode_vault_file(&f);
    assert_eq!(bytes.len(), 31);
    let g = decode_vault_file(&bytes).unwrap();
    assert_eq!(g.salt, f.salt);
    assert_eq!(g.nonce, f.nonce);
    assert_eq!(g.ciphertext, f.ciphertext);
}

#[test]
fn codec_refuses_short_input() {
    assert!(matches!(decode_vault_file(&vec![0u8; 27]), Err(VaultError::Format)));
    let g = decode_vault_file(&vec![5u8; 28]).unwrap();
    assert!(g.ciphertext.is_empty());
}

#[test]
fn empty_password_round_trip() {
    let sealed = seal_vault("", &payload()).unwrap();
    assert_eq!(sealed.len(), HEADER_LEN + payload().len() + 16);
    assert_eq!(open_vault("", &sealed).unwrap(), payload());
}

#[test]
fn file_shorter_than_a_tag_fails_authentication() {
    let bytes = vec![3u8; HEADER_LEN + 15];
    assert_eq!(open_vault("pw", &bytes), Err(VaultError::Authentication));
}
