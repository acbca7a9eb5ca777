[package]
name = "koaai"
version = "0.1.0"
edition = "2021"
publish = false

[dependencies]
regex = "1.12"
url = "2.5"
urlencoding = "2.1"
chrono = { version = "0.4", default-features = false, features = ["std"] }
dashmap = "5.5"
serde = { version = "1", features = ["derive"] }
serde_json = "1"
toml = "0.8"
