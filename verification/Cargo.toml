[package]
name = "eth_keygen"
version = "0.1.0"
edition = "2021"
publish = false

[dependencies]
secp256k1 = { version = "0.29", features = ["rand"] }
rand_jitter = "0.4"
tiny-keccak = "1.5"
hex = "0.4"
web3 = { version = "0.19", default-features = false }
serde = { version = "1", features = ["derive"] }
serde_json = "1"
clap = { version = "4", features = ["derive"] }
iocore = "*"
