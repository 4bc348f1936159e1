[package]
name = "skynet"
version = "0.1.0"
edition = "2021"
publish = false

[dependencies]
base62 = "2"
ciborium = "0.2"
serde = { version = "1", features = ["derive"] }
xxhash-rust = { version = "0.8", features = ["const_xxh64"] }
toml = "0.8"
