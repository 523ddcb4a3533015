use secure_vault::{build_charset, generate_passphrase, generate_passphrase_from, generate_password};
use secure_vault::{GeneratorError, WORDS};

#[test]
fn test_generate_password_exclusions() {
    let password = generate_password(100, false, true, false, "0123456789".to_string()).unwrap();
    assert!(!password.chars().any(|c| c.is_numeric()));
}

#[test]
fn generated_password_has_requested_length() {
    for n in [0usize, 1, 7, 32, 100] {
        let p = generate_password(n, true, true, true, String::new()).unwrap();
        assert_eq!(p.chars().count(), n);
    }
}

#[test]
fn lowercase_only_when_no_class_requested() {
    let p = generate_password(200, false, false, false, String::new()).unwrap();
    assert!(p.chars().all(|c| c.is_ascii_lowercase()));
}

#[test]
fn symbols_come_from_the_fixed_set() {
    let lower = "abcdefghijklmnopqrstuvwxyz".to_string();
    let p = generate_password(200, false, false, true, lower).unwrap();
    assert_eq!(p.chars().count(), 200);
    assert!(p.chars().all(|c| "!@#$%^&*()_+-=[]{}".contains(c)));
}

#[test]
fn everything_excluded_is_an_error() {
    let lower = "abcdefghijklmnopqrstuvwxyz".to_string();
    assert_eq!(
        generate_password(10, false, false, false, lower),
        Err(GeneratorError::EmptyCharset)
    );
}

#[test]
fn charset_keeps_order_and_drops_exclusions() {
    let c = build_charset(false, true, false, "aeiou13579xyz");
    let s: String = c.into_iter().collect();
    assert_eq!(s, "bcdfghjklmnpqrstvw02468");
    let all = build_charset(true, true, true, "");
    assert_eq!(all.len(), 26 + 26 + 10 + 18);
}

#[test]
fn passphrase_has_word_count_words() {
    let p = generate_passphrase(5, "-".to_string()).unwrap();
    let parts: Vec<&str> = p.split('-').collect();
    assert_eq!(parts.len(), 5);
    assert!(parts.iter().all(|w| WORDS.contains(w)));
    assert!(!p.starts_with('-') && !p.ends_with('-'));
}

#[test]
fn passphrase_of_zero_words_is_empty() {
    assert_eq!(generate_passphrase(0, " ".to_string()).unwrap(), "");
}

#[test]
fn passphrase_of_one_word_has_no_separator() {
    let p = generate_passphrase(1, "::".to_string()).unwrap();
    assert!(WORDS.contains(&p.as_str()));
}

#[test]
fn passphrase_with_multichar_separator() {
    let words = ["alpha", "beta"];
    let p = generate_passphrase_from(&words, 3, ", ").unwrap();
    let parts: Vec<&str> = p.split(", ").collect();
    assert_eq!(parts.len(), 3);
    assert!(parts.iter().all(|w| *w == "alpha" || *w == "beta"));
}

#[test]
fn passphrase_from_single_word_list() {
    let words = ["only"];
    assert_eq!(generate_passphrase_from(&words, 3, "+").unwrap(), "only+only+only");
}

#[test]
fn passphrase_from_empty_list_is_an_error() {
    let words: [&str; 0] = [];
    assert_eq!(generate_passphrase_from(&words, 3, "-"), Err(GeneratorError::EmptyWordList));
}

#[test]
fn passphrase_splits_back_at_single_char_separator() {
    let p = generate_passphrase(8, " ".to_string()).unwrap();
    let parts: Vec<&str> = p.split(' ').collect();
    assert_eq!(parts.len(), 8);
    assert!(parts.iter().all(|w| WORDS.contains(w)));
}
