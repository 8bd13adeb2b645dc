[package]
name = "wg_handshake"
version = "0.1.0"
edition = "2021"
publish = false

[dependencies]
hex = "*"
spin = "*"
x25519-dalek = { version = "*", features = ["static_secrets"] }
