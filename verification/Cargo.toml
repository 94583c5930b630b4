[package]
name = "life"
version = "0.1.0"
edition = "2021"
publish = false

[dependencies]
anyhow = "1"
cod = "*"
rand = "0.8"
