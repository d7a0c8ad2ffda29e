[package]
name = "magic_eight_ball"
version = "0.1.0"
edition = "2021"
publish = false

[dependencies]
rand = "=0.8.8"
anyhow = "=1.0.104"
http = "=0.2.12"
spin-sdk = "=2.2.0"
