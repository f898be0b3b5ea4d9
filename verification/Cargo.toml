[package]
name = "auth_gate"
version = "0.1.0"
edition = "2021"
publish = false

[dependencies]
anyhow = "1"
axum = { version = "0.5", features = ["headers"] }
chrono = "0.4"
headers = "0.3"
jsonwebtoken = { version = "9", default-features = false }
lazy_static = "1"
okapi = "*"
prost = "0.11"
schemars = "0.8"
serde = { version = "1", features = ["derive"] }
serde_json = { version = "1", features = ["preserve_order"] }
sqlx = { version = "0.6", default-features = false, features = ["runtime-tokio-rustls", "postgres", "uuid"] }
tonic = "0.8"
uuid = { version = "1", features = ["serde", "v4"] }
