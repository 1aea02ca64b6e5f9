[package]
name = "downloader"
version = "0.1.0"
edition = "2021"
publish = false

[dependencies]
futures = "0.3"
hex = "0.4"
reqwest = { version = "0.12", default-features = false, features = ["rustls-tls"] }
serde = { version = "1", features = ["derive"] }
sha1 = "0.10"
tauri = { version = "2", default-features = false }
tokio = { version = "1", features = ["fs", "io-util", "sync"] }
