[package]
name = "ed25519_signing"
version = "0.1.0"
edition = "2021"
publish = false

[dependencies]
curve25519-dalek = "*"
sha2 = "*"
hex = "*"
zeroize = "*"
rand_core = "*"
serde = { version = "*", features = ["derive"] }

[dev-dependencies]
pkcs8 = "*"
