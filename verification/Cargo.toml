[package]
name = "labelflair"
version = "0.1.0"
edition = "2021"
publish = false

[dependencies]
clawless = "*"
getset = "*"
serde = { version = "1", features = ["derive"] }
serde_yaml_ng = "*"
toml = "*"
typed-builder = "*"
typed-fields = "*"
