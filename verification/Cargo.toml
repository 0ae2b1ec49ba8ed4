[package]
name = "onewipe"
version = "0.1.0"
edition = "2021"

[dependencies]
chrono = "*"
rand = "*"
clap = { version = "*", features = ["derive"] }
serde = { version = "*", features = ["derive"] }
serde_json = "*"
