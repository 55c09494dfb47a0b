use auth_core::auth::{hash_or_error, hash_password, verdict_accepts, verify_password, AuthError};

const KNOWN_PASSWORD: &str = "correctbatteryhorsestapler";
const KNOWN_HASH: &str = "$2b$04$EGdrhbKUv8Oc9vGiXX0HQOxSg445d458Muh7DAHskb6QbtCvdxcie";

fn backend_error() -> bcrypt::BcryptError {
    bcrypt::verify("x", "not a hash").unwrap_err()
}

#[test]
fn hashed_password_verifies() {
    let hash = hash_password("Secr3t!").expect("hashing works");
    assert!(verify_password("Secr3t!", &hash));
}

#[test]
fn other_password_is_refused() {
    let hash = hash_password("Secr3t!").expect("hashing works");
    assert!(!verify_password("secret!", &hash));
}

#[test]
fn two_hashes_of_one_password_differ() {
    let first = hash_password("Secr3t!").expect("hashing works");
    let second = hash_password("Secr3t!").expect("hashing works");
    assert_ne!(first, second);
}

#[test]
fn second_hash_verifies_too() {
    let _first = hash_password("pass phrase").expect("hashing works");
    let second = hash_password("pass phrase").expect("hashing works");
    assert!(verify_password("pass phrase", &second));
}

#[test]
fn hash_is_self_describing() {
    let hash = hash_password("Secr3t!").expect("hashing works");
    assert_eq!(hash.len(), 60);
    assert!(hash.starts_with("$2b$12$"));
    assert!(hash[7..].bytes().all(|b| b.is_ascii_alphanumeric() || b == b'.' || b == b'/'));
}

#[test]
fn hash_is_not_the_password() {
    let hash = hash_password("Secr3t!").expect("hashing works");
    assert_ne!(hash, "Secr3t!");
    assert!(!hash.contains("Secr3t!"));
}

#[test]
fn empty_password_round_trips() {
    let hash = hash_password("").expect("hashing works");
    assert!(verify_password("", &hash));
}

#[test]
fn long_unicode_password_round_trips() {
    let password = "p\u{e4}ssw\u{f6}rd-\u{1f511}-".repeat(12);
    let hash = hash_password(&password).expect("hashing works");
    assert!(verify_password(&password, &hash));
}

#[test]
fn hash_from_another_process_verifies() {
    assert!(verify_password(KNOWN_PASSWORD, KNOWN_HASH));
    assert!(verify_password(
        "password",
        "$2a$04$UuTkLRZZ6QofpDOlMz32MuuxEHA43WOemOYHPz6.SjsVsyO1tDU96"
    ));
}

#[test]
fn wrong_password_against_known_hash_is_refused() {
    assert!(!verify_password("wrong", KNOWN_HASH));
    assert!(!verify_password("", KNOWN_HASH));
    assert!(!verify_password("correctbatteryhorsestaple", KNOWN_HASH));
    assert!(!verify_password("Correctbatteryhorsestapler", KNOWN_HASH));
}

#[test]
fn verify_does_not_hand_back_its_input() {
    assert!(verify_password(KNOWN_PASSWORD, KNOWN_HASH));
    assert!(!verify_password(KNOWN_HASH, KNOWN_HASH));
    assert!(!verify_password(KNOWN_PASSWORD, KNOWN_PASSWORD));
}

#[test]
fn malformed_hash_is_refused_not_raised() {
    assert!(!verify_password("password", ""));
    assert!(!verify_password("password", "password"));
    assert!(!verify_password("password", "$2b$04$tooshort"));
    assert!(!verify_password("password", "$9z$04$EGdrhbKUv8Oc9vGiXX0HQOxSg445d458Muh7DAHskb6QbtCvdxcie"));
    assert!(!verify_password("password", "$2b$xx$EGdrhbKUv8Oc9vGiXX0HQOxSg445d458Muh7DAHskb6QbtCvdxcie"));
    assert!(!verify_password("password", "$2b$99$EGdrhbKUv8Oc9vGiXX0HQOxSg445d458Muh7DAHskb6QbtCvdxcie"));
    assert!(!verify_password("password", "$2b$04$EGdrhbKUv8Oc9vGiXX0HQOxSg445d458Muh7DAHskb6QbtCvd!!ie"));
    assert!(!verify_password("password", "$argon2id$v=19$m=16,t=2,p=1$c2FsdHNhbHQ$4K3k0i9cG1eYwC2p8W6q9A"));
}

#[test]
fn only_a_clean_yes_is_accepted() {
    assert!(verdict_accepts(Ok(true)));
    assert!(!verdict_accepts(Ok(false)));
    assert!(!verdict_accepts(Err(backend_error())));
    assert!(!verdict_accepts(Err(bcrypt::BcryptError::CostNotAllowed(99))));
}

#[test]
fn backend_hash_passes_through() {
    assert_eq!(hash_or_error(Ok(KNOWN_HASH.to_string())), Ok(KNOWN_HASH.to_string()));
    assert_eq!(hash_or_error(Ok(String::new())), Ok(String::new()));
}

#[test]
fn backend_failure_becomes_hashing_error() {
    assert_eq!(hash_or_error(Err(backend_error())), Err(AuthError::HashingUnavailable));
    assert_eq!(
        hash_or_error(Err(bcrypt::BcryptError::CostNotAllowed(3))),
        Err(AuthError::HashingUnavailable)
    );
}
