[package]
name = "hotshot_core"
version = "0.1.0"
edition = "2021"
publish = false

[dependencies]
sha2 = "0.10"
rand = "0.7"
threshold_crypto = "0.4"
