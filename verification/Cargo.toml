[package]
name = "core_errors"
version = "0.1.0"
edition = "2021"
publish = false

[dependencies]
bincode = "1"
futures = "0.3"
quic-p2p = "*"
safe-nd = "*"
self_encryption = "*"
serde_json = "1"
