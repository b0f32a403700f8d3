[package]
name = "chain_crypto"
version = "0.1.0"
edition = "2021"
publish = false

[dependencies]
cryptoxide = "0.4"
ed25519-bip32 = "0.4"
rand_core = "0.6"
