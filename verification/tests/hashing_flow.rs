use rockpass::hashing::hash_password;
use rockpass::hashing::hash_then_verify;
use rockpass::hashing::verify_password;

#[test]
fn a_password_verifies_against_its_own_hash() {
    let hash = hash_password("correct horse battery staple").unwrap();
    assert!(verify_password("correct horse battery staple", hash.as_str()));
}

#[test]
fn a_different_password_fails_against_the_hash() {
    let hash = hash_password("correct horse battery staple").unwrap();
    assert!(!verify_password("wrong horse", hash.as_str()));
    assert!(!verify_password("", hash.as_str()));
    assert!(!verify_password("correct horse battery staplE", hash.as_str()));
}

#[test]
fn hash_then_verify_round_trips() {
    assert_eq!(hash_then_verify("test"), Some(true));
    assert_eq!(hash_then_verify(""), Some(true));
}

#[test]
fn a_malformed_stored_hash_matches_nothing() {
    assert!(!verify_password("test", "not a bcrypt hash"));
}

#[test]
fn hashes_of_the_same_password_differ_by_salt_yet_both_verify() {
    let first = hash_password("test").unwrap();
    let second = hash_password("test").unwrap();
    assert_ne!(first, second);
    assert!(verify_password("test", first.as_str()));
    assert!(verify_password("test", second.as_str()));
}
