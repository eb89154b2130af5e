[package]
name = "tw_keypair"
version = "0.1.0"
edition = "2021"
publish = false

[dependencies]
bitcoin = { version = "0.30", features = ["rand-std"] }
secp256k1 = { version = "0.27", features = ["global-context", "rand-std"] }
zeroize = "1.6"
