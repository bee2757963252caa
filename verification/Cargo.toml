[package]
name = "crust"
version = "0.1.0"
edition = "2021"
publish = false

[dependencies]
bytes = "*"
futures = "=0.1.31"
future-utils = "*"
serde = { version = "1", features = ["derive"] }
