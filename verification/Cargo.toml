[package]
name = "lobster"
version = "0.1.0"
edition = "2021"
publish = false

[dependencies]
hex = "=0.4.3"
sp-core = { version = "=43.0.0", features = ["full_crypto"] }
sp-crypto-hashing = "=0.1.0"
