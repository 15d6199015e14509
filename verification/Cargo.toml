[package]
name = "acwc"
version = "0.1.0"
edition = "2021"
publish = false

[dependencies]
base64 = "0.13"
chrono = "0.4"
getrandom = "0.2"
serde = { version = "1", features = ["derive"] }
serde_json = "1"
sha2 = "0.10"
toml = "0.5"
urlencoding = "2"
postgres = "0.19"
r2d2 = "0.8"
r2d2_postgres = "0.18"
reqwest = { version = "0.11", default-features = false, features = ["blocking", "json"] }
