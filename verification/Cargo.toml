[package]
name = "mars_rover"
version = "0.1.0"
edition = "2021"
publish = false

[dependencies]
anyhow = "=1.0.104"
ed25519-dalek = "=2.2.0"
hex = "=0.4.3"
napi = "=2.16.17"
napi-derive = "=2.16.13"
serde = { version = "=1.0.229", features = ["derive"] }
serde_json = "=1.0.154"
sha2 = "=0.10.9"
soroban-env-common = { version = "=30.0.0", features = ["serde"] }
soroban-env-host = { version = "=30.0.0", features = ["testutils"] }
soroban-simulation = "=30.0.0"
