[package]
name = "bundlr"
version = "0.1.0"
edition = "2021"
publish = false

[dependencies]
serde = { version = "*", features = ["derive"] }
serde_json = "*"
sha2 = "*"
ed25519-dalek = "*"
reqwest = { version = "*", default-features = false, features = ["blocking"] }
