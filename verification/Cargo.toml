[package]
name = "granary"
version = "0.1.0"
edition = "2021"
publish = false

[dependencies]
serde = { version = "1", features = ["derive"] }
serde_json = "1"
dirs = "*"
rand = "0.8"
chrono = "0.4"
toml = "*"
uuid = { version = "1", features = ["v4"] }
thiserror = "*"
tabled = "*"
