use patrol::crypto::hashing::{hash, parse_hash, verify, HashingError};

const SALT: &str = "c2FsdHNhbHRzYWx0";

#[test]
fn a_secret_verifies_against_its_hash() {
    let h = hash(SALT, b"correct horse").unwrap();
    assert!(h.as_str().starts_with("$argon2id$v=19$m=19456,t=2,p=1$c2FsdHNhbHRzYWx0$"));
    assert!(h.as_str().len() > "$argon2id$v=19$m=19456,t=2,p=1$c2FsdHNhbHRzYWx0$".len());
    assert!(verify(b"correct horse", &h));
    assert!(!verify(b"wrong horse", &h));
}

#[test]
fn hashing_is_a_function_of_salt_and_secret() {
    let a = hash(SALT, b"pw").unwrap();
    let b = hash(SALT, b"pw").unwrap();
    assert_eq!(a.as_str(), b.as_str());
    let c = hash("b3RoZXJzYWx0c2FsdA", b"pw").unwrap();
    assert_ne!(a.as_str(), c.as_str());
}

#[test]
fn a_stored_hash_parses_back() {
    let h = hash(SALT, b"pw").unwrap();
    let parsed = parse_hash(h.as_str()).unwrap();
    assert_eq!(parsed.as_str(), h.as_str());
    assert!(verify(b"pw", &parsed));
}

#[test]
fn garbage_is_no_hash() {
    assert_eq!(parse_hash("not a hash").err(), Some(HashingError::ParseFailed));
    assert_eq!(HashingError::ParseFailed.message(), "Failed to parse hash");
}

#[test]
fn an_invalid_salt_fails_hashing() {
    assert_eq!(hash("!!", b"pw").err(), Some(HashingError::HashFailed));
    assert_eq!(HashingError::HashFailed.message(), "Failed to hash secret");
}
