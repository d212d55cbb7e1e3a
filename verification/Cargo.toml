[package]
name = "rcpdaemon"
version = "0.1.0"
edition = "2021"
publish = false

[dependencies]
uuid = { version = "=1.27.0", features = ["v4", "v5"] }
serde = { version = "=1.0.229", features = ["derive"] }
toml = "*"
