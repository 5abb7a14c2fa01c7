use openvtt::password::check_password;
use openvtt::routes::players::{PlayerPayload, PASSWORD_HASH_COST};

fn payload() -> PlayerPayload {
    PlayerPayload { username: "bob".to_string(), password: "hunter2".to_string() }
}

#[test]
fn registration_cost_is_fourteen() {
    assert_eq!(PASSWORD_HASH_COST, 14);
}

#[test]
fn new_player_takes_username_and_hash() {
    let request = payload();
    let row = request.new_player("$2b$14$abc");
    assert_eq!(row.username, "bob");
    assert_eq!(row.hashed_password, "$2b$14$abc");
}

#[test]
fn hashed_password_verifies() {
    let request = payload();
    let hash = request.hashed_password().unwrap();
    assert_eq!(hash.len(), 60);
    assert!(hash.starts_with("$2b$14$"));
    assert_eq!(check_password("hunter2", &hash), Some(true));
}
