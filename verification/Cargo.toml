[package]
name = "vault_admin"
version = "0.1.0"
edition = "2021"
publish = false

[dependencies]
serde = { version = "1", features = ["derive"] }
stellar-strkey = "*"
zephyr-sdk = "*"
