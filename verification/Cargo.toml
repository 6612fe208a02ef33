[package]
name = "keyderive"
version = "0.1.0"
edition = "2021"
publish = false

[dependencies]
argon2 = "0.5"
bitcoin = "0.32"
bs58 = "0.5"
sha3 = "0.10"
