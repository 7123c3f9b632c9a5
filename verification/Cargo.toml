[package]
name = "internet_identity_interface"
version = "0.1.0"
edition = "2021"
publish = false

[dependencies]
candid = "*"
serde = { version = "1", features = ["derive"] }
serde_bytes = "*"
