[package]
name = "signatory"
version = "0.1.0"
edition = "2021"
publish = false

[dependencies]
ring = "*"
pkcs8 = { version = "0.7", features = ["pem", "std"] }

[dev-dependencies]
ed25519-dalek = "*"
