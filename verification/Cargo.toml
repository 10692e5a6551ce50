[package]
name = "double_hash"
version = "0.1.0"
edition = "2021"
publish = false

[dependencies]
digest = "0.10"
sha2 = "0.10"

[dev-dependencies]
anyhow = "1"
k256 = "0.13"
