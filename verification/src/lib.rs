//! Verified core of a small virtual tabletop: the error answers of its
//! HTTP server, the credential checks behind its login, and the password
//! hashing of its player registration.

pub mod errors;
pub mod json;
pub mod password;
pub mod database;
pub mod models;
pub mod routes;
pub mod client;
pub mod server;
