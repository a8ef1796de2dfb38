[package]
name = "qbittorrent_web_api"
version = "0.1.0"
edition = "2021"
publish = false

[dependencies]
url = "*"
urlencoding = "*"
serde = { version = "*", features = ["derive"] }
serde_json = "*"
reqwest = { version = "*", default-features = false, features = ["cookies", "json"] }
tokio = { version = "*", default-features = false, features = ["sync"] }
