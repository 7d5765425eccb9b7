[package]
name = "vanity58"
version = "0.1.0"
edition = "2021"
publish = false

[dependencies]
bs58 = "*"
ed25519-dalek = "1"
rand = "0.8"
rand_xoshiro = "0.6"
