[package]
name = "signature_package"
version = "0.1.0"
edition = "2021"
publish = false

[dependencies]
libsecp256k1 = "*"
sha3 = "*"
rand = "0.8"
