[package]
name = "reaboot"
version = "0.1.0"
edition = "2021"
publish = false

[dependencies]
url = "=2.5.8"
dirs = "=5.0.1"
camino = "=1.2.6"
indexmap = "=2.14.2"
hex = "=0.4.3"
multihash = "=0.19.5"
multihash-codetable = { version = "=0.2.2", features = ["sha2"] }
multihash-derive = "=0.9.3"
sha2 = "=0.10.9"
rust-ini = "=0.21.3"
encoding_rs = "=0.8.44"
clap = { version = "=4.6.7", features = ["derive"] }
serde = { version = "=1.0.229", features = ["derive"] }
serde_json = "=1.0.154"
