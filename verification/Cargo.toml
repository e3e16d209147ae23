[package]
name = "opaque_vault_server"
version = "0.1.0"
edition = "2021"
publish = false

[dependencies]
hex = "=0.4.3"
hkdf = "=0.12.4"
hmac = "=0.12.1"
opaque-ke = { version = "=4.0.1", features = ["argon2", "ristretto255"] }
rand = "=0.8.8"
serde = { version = "=1.0.229", features = ["derive"] }
sha2 = "=0.10.9"
