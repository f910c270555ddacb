[package]
name = "codex_auth"
version = "0.1.0"
edition = "2021"
publish = false

[dependencies]
base64 = "0.22"
sha2 = "0.10"
rand = "0.9"
chrono = "0.4"
url = "2"
urlencoding = "2"
serde = { version = "1", features = ["derive"] }
serde_json = "1"
reqwest = { version = "0.12", default-features = false, features = ["rustls-tls", "json"] }
tokio = { version = "1", features = ["rt", "rt-multi-thread", "net", "time", "io-util", "macros", "sync"] }
