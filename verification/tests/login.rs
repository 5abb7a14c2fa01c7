use openvtt::database::models::Player;
use openvtt::errors::auth::AuthError;
use openvtt::password::hash_password;
use openvtt::routes::auth::{
    authenticate, check_credentials, password_verdict, AuthPayload, LoginError,
};

const KNOWN_HASH: &str = "$2b$04$EGdrhbKUv8Oc9vGiXX0HQOxSg445d458Muh7DAHskb6QbtCvdxcie";

fn payload(username: &str, password: &str) -> AuthPayload {
    AuthPayload { username: username.to_string(), password: password.to_string() }
}

fn player(hash: &str) -> Player {
    Player { id: Some(7), username: "alice".to_string(), hashed_password: hash.to_string() }
}

#[test]
fn credentials_present_pass() {
    assert_eq!(check_credentials(&payload("alice", "pw")), Ok(()));
}

#[test]
fn empty_username_is_missing() {
    assert_eq!(check_credentials(&payload("", "pw")), Err(AuthError::MissingCredentials));
}

#[test]
fn empty_password_is_missing() {
    assert_eq!(check_credentials(&payload("alice", "")), Err(AuthError::MissingCredentials));
}

#[test]
fn both_empty_is_missing() {
    assert_eq!(check_credentials(&payload("", "")), Err(AuthError::MissingCredentials));
}

#[test]
fn whitespace_counts_as_present() {
    assert_eq!(check_credentials(&payload(" ", " ")), Ok(()));
}

#[test]
fn verdict_on_match() {
    assert_eq!(password_verdict(Some(true), player(KNOWN_HASH)), Ok(player(KNOWN_HASH)));
}

#[test]
fn verdict_on_mismatch() {
    assert_eq!(
        password_verdict(Some(false), player(KNOWN_HASH)),
        Err(LoginError::Refused(AuthError::InvalidCredentials))
    );
}

#[test]
fn verdict_on_unreadable_hash() {
    assert_eq!(password_verdict(None, player("x")), Err(LoginError::UnreadableHash));
}

#[test]
fn right_password_logs_in() {
    let result = authenticate(&payload("alice", "correctbatteryhorsestapler"), player(KNOWN_HASH));
    assert_eq!(result, Ok(player(KNOWN_HASH)));
}

#[test]
fn wrong_password_is_invalid() {
    let result = authenticate(&payload("alice", "wrong"), player(KNOWN_HASH));
    assert_eq!(result, Err(LoginError::Refused(AuthError::InvalidCredentials)));
}

#[test]
fn stored_plain_text_is_unreadable() {
    let result = authenticate(&payload("alice", "secret"), player("secret"));
    assert_eq!(result, Err(LoginError::UnreadableHash));
}

#[test]
fn registered_password_logs_in_law() {
    let hash = hash_password("s3cret pass", 4).unwrap();
    let stored = player(&hash);
    assert_eq!(authenticate(&payload("alice", "s3cret pass"), stored.clone()), Ok(stored));
}

#[test]
fn registered_password_refuses_other_password() {
    let hash = hash_password("s3cret pass", 4).unwrap();
    assert_eq!(
        authenticate(&payload("alice", "s3cret pasS"), player(&hash)),
        Err(LoginError::Refused(AuthError::InvalidCredentials))
    );
}

#[test]
fn empty_credentials_refused_even_with_matching_hash() {
    let result = authenticate(&payload("", "correctbatteryhorsestapler"), player(KNOWN_HASH));
    assert_eq!(result, Err(LoginError::Refused(AuthError::MissingCredentials)));
}

#[test]
fn empty_password_refused_before_hash_is_read() {
    let result = authenticate(&payload("alice", ""), player("not a hash"));
    assert_eq!(result, Err(LoginError::Refused(AuthError::MissingCredentials)));
}

#[test]
fn registered_hash_decides_every_login_law() {
    let hash = hash_password("first", 4).unwrap();
    for other in ["first", "second", "x", "first "] {
        let result = authenticate(&payload("alice", other), player(&hash));
        assert!(
            result == Ok(player(&hash))
                || result == Err(LoginError::Refused(AuthError::InvalidCredentials))
        );
    }
}
