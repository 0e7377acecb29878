[package]
name = "pingcrm"
version = "0.1.0"
edition = "2021"
publish = false

[dependencies]
md5 = "0.7"
time = { version = "0.3", features = ["formatting"] }
url = "2"
validator = "*"
axum = "0.8"
tokio = { version = "1", features = ["full"] }
serde = { version = "1", features = ["derive"] }
serde_json = "1"
chrono = { version = "0.4", features = ["serde"] }
tracing = "0.1"
anyhow = "1"
async-trait = "0.1"
http-body-util = "0.1"
tower-sessions = "*"
diesel = { version = "2", features = ["sqlite", "chrono"] }
diesel-async = { version = "*", features = ["sqlite"] }
diesel_migrations = "2"
