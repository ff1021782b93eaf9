[package]
name = "bls_sigs"
version = "0.1.0"
edition = "2021"
publish = false

[dependencies]
ff-zeroize = "*"
hkdf = "0.8"
pairing-plus = "*"
sha2 = "0.8"
