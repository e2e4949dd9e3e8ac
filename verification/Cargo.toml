[package]
name = "chain_staking"
version = "0.1.0"
edition = "2021"
publish = false

[dependencies]
hex = "0.4"
sha2 = "0.10"
log = "0.4"
failure = "0.1"
quest = "0.3"
serde = { version = "1", features = ["derive"] }
serde_cbor = "0.11"
structopt = "0.3"
parity-scale-codec = { version = "1.3", features = ["derive"] }
