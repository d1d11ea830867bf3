[package]
name = "qomm_avalanche_vm"
version = "0.1.0"
edition = "2021"
publish = false

[dependencies]
base64 = "=0.22.1"
curve25519-dalek = "=4.1.3"
ed25519-dalek = "=2.2.0"
hex = "=0.4.3"
serde = { version = "=1.0.229", features = ["derive"] }
serde_json = "=1.0.154"
sha2 = "=0.10.9"
