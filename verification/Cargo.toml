[package]
name = "rusty_chain"
version = "0.1.0"
edition = "2021"
publish = false

[dependencies]
hex = "0.4"
rand = "0.8"
secp256k1 = { version = "0.29", features = ["rand-std"] }
serde = { version = "1", features = ["derive"] }
serde_json = "1"
sha2 = "0.10"
