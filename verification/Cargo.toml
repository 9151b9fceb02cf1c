[package]
name = "creator_signal_auth"
version = "0.1.0"
edition = "2021"
publish = false

[dependencies]
anyhow = "1"
axum = "0.8"
axum-extra = { version = "0.10", features = ["cookie"] }
base64 = "0.22"
bytes = "1"
chrono = "0.4"
jsonwebtoken = { version = "10", default-features = false, features = ["rust_crypto"] }
log = "0.4"
regex = "1"
reqwest = { version = "0.12", default-features = false, features = ["json", "rustls-tls"] }
serde = { version = "1", features = ["derive"] }
serde_json = { version = "1", features = ["float_roundtrip"] }
sha2 = "0.10"
time = "0.3"
tokio = { version = "1", features = ["fs", "rt"] }
url = "2"
