[package]
name = "tourist"
version = "0.1.0"
edition = "2021"

[dependencies]

[dev-dependencies]
dirs = "*"
