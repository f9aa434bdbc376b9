use session_auth::error::AuthError;
use session_auth::password::check_password;
use session_auth::password::hash_password;
use session_auth::password::verify_password_hash;

const KNOWN_HASH: &str =
    "$argon2id$v=19$m=256,t=2,p=1$c29tZXNhbHQ$nf65EOgLrQMR/uIPnA4rEsF5h7TKyQwu9U1bMCHGi/4";

#[test]
fn hashed_password_verifies() {
    let hash = hash_password("correct horse".to_string()).unwrap();
    assert_eq!(verify_password_hash("correct horse".to_string(), hash), Ok(true));
}

#[test]
fn other_password_does_not_verify() {
    let hash = hash_password("correct horse".to_string()).unwrap();
    assert_eq!(verify_password_hash("battery staple".to_string(), hash), Ok(false));
}

#[test]
fn same_password_hashes_differently_each_time() {
    let first = hash_password("correct horse".to_string()).unwrap();
    let second = hash_password("correct horse".to_string()).unwrap();
    assert_ne!(first, second);
    assert_eq!(verify_password_hash("correct horse".to_string(), first), Ok(true));
    assert_eq!(verify_password_hash("correct horse".to_string(), second), Ok(true));
}

#[test]
fn hash_is_an_argon2id_phc_string() {
    let hash = hash_password("pw".to_string()).unwrap();
    assert_ne!(hash, "pw");
    assert!(hash.starts_with("$argon2id$v=19$m=19456,t=2,p=1$"));
    assert_eq!(hash.split('$').count(), 6);
}

#[test]
fn empty_password_is_not_hashed() {
    assert_eq!(hash_password(String::new()), Err(AuthError::InvalidInput));
}

#[test]
fn empty_password_is_invalid_input_on_verify() {
    assert_eq!(
        verify_password_hash(String::new(), KNOWN_HASH.to_string()),
        Err(AuthError::InvalidInput)
    );
    assert_eq!(
        verify_password_hash(String::new(), "anything".to_string()),
        Err(AuthError::InvalidInput)
    );
}

#[test]
fn empty_stored_hash_is_invalid_input() {
    assert_eq!(
        verify_password_hash("anything".to_string(), String::new()),
        Err(AuthError::InvalidInput)
    );
    assert_eq!(verify_password_hash(String::new(), String::new()), Err(AuthError::InvalidInput));
}

#[test]
fn unparseable_stored_hash_is_invalid_input() {
    assert_eq!(
        verify_password_hash("password".to_string(), "not a hash".to_string()),
        Err(AuthError::InvalidInput)
    );
    assert_eq!(
        verify_password_hash("password".to_string(), "password".to_string()),
        Err(AuthError::InvalidInput)
    );
}

#[test]
fn known_hash_verifies_its_password() {
    assert_eq!(verify_password_hash("password".to_string(), KNOWN_HASH.to_string()), Ok(true));
    assert_eq!(check_password("password", KNOWN_HASH), Ok(true));
}

#[test]
fn known_hash_rejects_other_passwords() {
    assert_eq!(verify_password_hash("passwore".to_string(), KNOWN_HASH.to_string()), Ok(false));
    assert_eq!(verify_password_hash("Password".to_string(), KNOWN_HASH.to_string()), Ok(false));
    assert_eq!(check_password("p", KNOWN_HASH), Ok(false));
}

#[test]
fn hash_of_another_algorithm_is_a_mismatch_not_an_error() {
    let other = "$scrypt$ln=15,r=8,p=1$c29tZXNhbHQ$nf65EOgLrQMR/uIPnA4rEsF5h7TKyQwu9U1bMCHGi/4";
    assert_eq!(verify_password_hash("password".to_string(), other.to_string()), Ok(false));
}
