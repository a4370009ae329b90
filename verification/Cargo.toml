[package]
name = "kdguard"
version = "0.1.0"
edition = "2021"
publish = false

[dependencies]
ring = "*"
clap = { version = "*", features = ["derive"] }
serde = { version = "*", features = ["derive"] }
toml = "*"
dirs = "*"
chrono = "*"
