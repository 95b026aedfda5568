[package]
name = "bls_like"
version = "0.1.0"
edition = "2021"
publish = false

[dependencies]
bls12_381 = { version = "=0.8.0", features = ["experimental"] }
ff = "=0.13.1"
group = "=0.13.0"
rand = "=0.8.8"
rand_core = "=0.6.4"
rand_chacha = "=0.3.1"
sha3 = "0.9"
serde = "1"
