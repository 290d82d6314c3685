[package]
name = "evm_state_cache"
version = "0.1.0"
edition = "2021"
publish = false

[dependencies]
dashmap = "*"
moka = { version = "0.12", features = ["sync"] }
primitive-types = "*"
revm = { version = "14", default-features = false, features = ["std"] }
