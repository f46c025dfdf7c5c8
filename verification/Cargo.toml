[package]
name = "secure_container"
version = "0.1.0"
edition = "2021"
publish = false

[dependencies]
base64 = "*"
ring = "*"
chrono = "*"
clap = { version = "*", features = ["derive"] }
