[package]
name = "env_type"
version = "0.1.0"
edition = "2021"
publish = false

[dependencies]
shuttle-runtime = "*"
strum = { version = "*", features = ["derive"] }
