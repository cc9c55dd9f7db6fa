[package]
name = "layercfg"
version = "0.1.0"
edition = "2021"
publish = false

[dependencies]
envious = "*"
serde = { version = "*", features = ["derive"] }
rust_decimal = "*"
