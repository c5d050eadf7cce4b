[package]
name = "spawn_multisig"
version = "0.1.0"
edition = "2021"
publish = false

[dependencies]
secp256k1 = "=0.33.1"
ethers = { version = "2", default-features = false }
thiserror = "1"

[dev-dependencies]
rand = "=0.8.8"
