[package]
name = "tipjar"
version = "0.1.0"
edition = "2021"
publish = false

[dependencies]
sha2 = "=0.10.9"
soroban-sdk = { version = "25", features = ["testutils"] }
serde = { version = "=1.0.229", features = ["derive"] }
serde_json = "=1.0.154"
anyhow = "=1.0.104"

[dev-dependencies]
quickcheck = "1"
