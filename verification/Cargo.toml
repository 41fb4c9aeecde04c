[package]
name = "totp"
version = "0.1.0"
edition = "2021"
publish = false

[dependencies]
anyhow = "1"
base32 = "0.4"
console = "*"
indicatif = "*"
openssl = "0.10"
