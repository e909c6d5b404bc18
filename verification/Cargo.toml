[package]
name = "provenance_mark"
version = "0.1.0"
edition = "2021"
publish = false

[dependencies]
base64 = "*"
bc-crypto = "*"
bc-rand = "*"
dcbor = "*"
hex = "*"
hkdf = "*"
serde = { version = "*", features = ["derive"] }
sha2 = "*"
