use auth_core::auth::AuthError;
use auth_core::login::authenticate;
use auth_core::migration::{is_hashed, migrate_password, replacement, Migration};
use auth_core::models::{LoginRequest, User};

const KNOWN_PASSWORD: &str = "correctbatteryhorsestapler";
const KNOWN_HASH: &str = "$2b$04$EGdrhbKUv8Oc9vGiXX0HQOxSg445d458Muh7DAHskb6QbtCvdxcie";

fn request(username: &str, password: &str) -> LoginRequest {
    LoginRequest { username: username.to_string(), password: password.to_string() }
}

fn stored(username: &str, password: &str) -> User {
    User { id: 7, username: username.to_string(), password: password.to_string() }
}

#[test]
fn known_user_with_right_password_is_let_in() {
    let user = stored("alice", KNOWN_HASH);
    assert!(authenticate(&request("alice", KNOWN_PASSWORD), Some(&user)));
}

#[test]
fn known_user_with_wrong_password_is_refused() {
    let user = stored("alice", KNOWN_HASH);
    assert!(!authenticate(&request("alice", "wrong"), Some(&user)));
    assert!(!authenticate(&request("alice", ""), Some(&user)));
    assert!(!authenticate(&request("alice", KNOWN_HASH), Some(&user)));
}

#[test]
fn unknown_user_is_refused() {
    assert!(!authenticate(&request("mallory", KNOWN_PASSWORD), None));
    assert!(!authenticate(&request("", ""), None));
}

#[test]
fn password_stored_in_the_clear_lets_nobody_in() {
    let user = stored("alice", "hunter2");
    assert!(!authenticate(&request("alice", "hunter2"), Some(&user)));
}

#[test]
fn hash_marker_is_recognised() {
    assert!(is_hashed(KNOWN_HASH));
    assert!(is_hashed("$2b$"));
    assert!(is_hashed("$2b$ anything after it"));
    assert!(is_hashed("$2b$\u{e9}"));
}

#[test]
fn anything_else_counts_as_clear_text() {
    for text in ["", "$", "$2", "$2b", "hunter2", "$2a$04$abc", "$2y$", "$2B$", " $2b$", "2b$$", "\u{e9}$2b$", "$\u{e9}b$"] {
        assert!(!is_hashed(text));
    }
}

#[test]
fn hashed_value_is_kept() {
    assert_eq!(migrate_password(KNOWN_HASH), Migration::Keep);
    assert_eq!(migrate_password("$2b$"), Migration::Keep);
}

#[test]
fn clear_value_is_replaced_by_its_hash() {
    match migrate_password("hunter2") {
        Migration::Replace(hash) => {
            assert!(is_hashed(&hash));
            assert!(authenticate(&request("alice", "hunter2"), Some(&stored("alice", &hash))));
            assert_eq!(migrate_password(&hash), Migration::Keep);
        }
        other => panic!("expected a replacement, got {:?}", other),
    }
}

#[test]
fn replacement_follows_the_hashing_outcome() {
    assert_eq!(replacement(Ok(KNOWN_HASH.to_string())), Migration::Replace(KNOWN_HASH.to_string()));
    assert_eq!(replacement(Err(AuthError::HashingUnavailable)), Migration::Failed);
}
