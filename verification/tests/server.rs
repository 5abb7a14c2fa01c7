use openvtt::database::{DATABASE_PATH, POOL_MAX_SIZE};
use openvtt::routes::{DIST_DIRECTORY, UPLOADS_DIRECTORY};
use openvtt::server::{uploads_directory_ready, DirectoryCreation, DEFAULT_LOG_FILTER, SERVER_PORT};

#[test]
fn existing_uploads_directory_is_fine() {
    assert!(uploads_directory_ready(DirectoryCreation::Created));
    assert!(uploads_directory_ready(DirectoryCreation::AlreadyExists));
}

#[test]
fn failed_uploads_directory_is_fatal() {
    assert!(!uploads_directory_ready(DirectoryCreation::Failed));
}

#[test]
fn server_settings() {
    assert_eq!(SERVER_PORT, 3000);
    assert_eq!(DEFAULT_LOG_FILTER, "debug");
    assert_eq!(DATABASE_PATH, "database.sqlite3");
    assert_eq!(POOL_MAX_SIZE, 4);
    assert_eq!(DIST_DIRECTORY, "dist");
    assert_eq!(UPLOADS_DIRECTORY, "assets/uploads");
}
