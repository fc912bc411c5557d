[package]
name = "enclave_auth"
version = "0.1.0"
edition = "2021"
publish = false

[dependencies]
fastcrypto = "*"
serde = { version = "1", features = ["derive"] }
serde_json = "1"
reqwest = { version = "*", default-features = false, features = ["json"] }
axum = "*"
tracing = "*"

[dev-dependencies]
bcs = "*"
