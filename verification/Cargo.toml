[package]
name = "tss_core"
version = "0.1.0"
edition = "2021"
publish = false

[dependencies]
multi-party-ecdsa = "=0.8.1"
curv-kzen = "=0.9.0"
kzen-paillier = "=0.4.2"
zk-paillier = "=0.4.3"
centipede = "=0.3.0"
rust-crypto = "=0.2.36"
sha2 = "0.9"
serde = "1"
