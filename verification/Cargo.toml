[package]
name = "simulator"
version = "0.1.0"
edition = "2021"
publish = false

[dependencies]
base64 = "*"
dirs = "*"
inferno = "*"
serde = { version = "*", features = ["derive"] }
serde_json = "*"
sha2 = "*"
soroban-env-host = "*"
