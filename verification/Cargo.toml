[package]
name = "zegesim"
version = "0.1.0"
edition = "2021"
publish = false

[dependencies]
rand = "0.8"
csv = "*"
serde = { version = "*", features = ["derive"] }
yaml-rust = "*"
