[package]
name = "fusionauth_jwt_rs"
version = "0.1.0"
edition = "2021"
publish = false

[dependencies]
base64 = "0.22"
jsonwebtoken = { version = "10", default-features = false, features = ["rust_crypto"] }
rsa = "0.9"
sha2 = "0.10"
serde = { version = "1", features = ["derive"] }
serde_json = { version = "1", features = ["raw_value"] }
ureq = "3"
wasi = "0.14"
