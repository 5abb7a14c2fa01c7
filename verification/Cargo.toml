[package]
name = "openvtt"
version = "0.1.0"
edition = "2021"
publish = false

[dependencies]
bcrypt = "*"
serde = { version = "1", features = ["derive"] }
serde_json = "1"
axum = "*"
tokio = { version = "1", features = ["full"] }
tower-http = { version = "*", features = ["fs", "trace"] }
tracing = "*"
tracing-subscriber = { version = "*", features = ["env-filter"] }
diesel = { version = "2", features = ["sqlite"] }
deadpool-diesel = { version = "*", features = ["sqlite"] }
diesel_migrations = { version = "2", features = ["sqlite"] }
listenfd = "*"
