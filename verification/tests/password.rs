use openvtt::password::{check_password, hash_password, HashingFailed};

const KNOWN_HASH: &str = "$2b$04$EGdrhbKUv8Oc9vGiXX0HQOxSg445d458Muh7DAHskb6QbtCvdxcie";

#[test]
fn hash_has_version_cost_and_length() {
    let hash = hash_password("hunter2", 4).unwrap();
    assert_eq!(hash.len(), 60);
    assert!(hash.starts_with("$2b$04$"));
}

#[test]
fn hash_is_not_the_password() {
    let hash = hash_password("hunter2", 4).unwrap();
    assert_ne!(hash, "hunter2");
}

#[test]
fn hashed_password_checks_out() {
    let hash = hash_password("hunter2", 4).unwrap();
    assert_eq!(check_password("hunter2", &hash), Some(true));
    assert_eq!(check_password("hunter3", &hash), Some(false));
}

#[test]
fn two_digit_cost_in_prefix() {
    let hash = hash_password("pw", 10).unwrap();
    assert!(hash.starts_with("$2b$10$"));
}

#[test]
fn cost_below_range_is_refused() {
    assert_eq!(hash_password("hunter2", 3), Err(HashingFailed));
}

#[test]
fn cost_above_range_is_refused() {
    assert_eq!(hash_password("hunter2", 32), Err(HashingFailed));
}

#[test]
fn known_hash_matches_its_password() {
    assert_eq!(check_password("correctbatteryhorsestapler", KNOWN_HASH), Some(true));
}

#[test]
fn known_hash_refuses_other_password() {
    assert_eq!(check_password("wrong", KNOWN_HASH), Some(false));
}

#[test]
fn short_hash_is_unreadable() {
    assert_eq!(check_password("password", "$2a$04$tjARW6ZON3PhrAIRW2LG/u9a."), None);
}

#[test]
fn malformed_hash_is_unreadable() {
    let hash = "$2a$04$n4Uy0eSnMfvnESYL.bLwuuj0U/ETSsoTpRT9GVk$5bektyVVa5xnIi";
    assert_eq!(check_password("correctbatteryhorsestapler", hash), None);
}

#[test]
fn plain_text_is_unreadable() {
    assert_eq!(check_password("secret", "secret"), None);
}
