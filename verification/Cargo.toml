[package]
name = "ed25519_blake2b"
version = "0.1.0"
edition = "2021"
publish = false

[dependencies]
blake2 = "=0.8.1"
ed25519-dalek = "=0.9.1"
curve25519-dalek = "=1.2.6"
rand = "=0.6.5"
rustler = "=0.38.0"
