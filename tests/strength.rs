use secure_vault::check_password_strength;

#[test]
fn test_check_password_strength() {
    assert_eq!(check_password_strength("password".to_string()), 0);
    assert_eq!(
        check_password_strength("correct horse battery staple".to_string()),
        4
    );
}

#[test]
fn empty_password_scores_zero() {
    assert_eq!(check_password_strength(String::new()), 0);
}

#[test]
fn scores_stay_in_range() {
    for p in ["a", "Tr0ub4dor&3", "x7#Qz!pL9@wM", "aaaaaaaaaaaaaaaa"] {
        assert!(check_password_strength(p.to_string()) <= 4);
    }
}
