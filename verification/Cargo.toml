[package]
name = "wireguard_conf"
version = "0.1.0"
edition = "2021"
publish = false

[dependencies]
base64 = "*"
rand = "*"
x25519-dalek = { version = "*", features = ["static_secrets", "getrandom"] }
zeroize = "*"
