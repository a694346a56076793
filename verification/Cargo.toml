[package]
name = "grpmr"
version = "0.1.0"
edition = "2021"
publish = false

[dependencies]
teloxide = { version = "=0.5.3", default-features = false, features = ["rustls", "auto-send", "macros"] }
tokio-util = { version = "=0.6.10", features = ["codec"] }
regex = "=1.13.1"
mime = "=0.3.17"
mongodb = "=2.8.2"
tokio = { version = "=1.54.1", features = ["full"] }
tokio-stream = "=0.1.19"
reqwest = { version = "=0.11.27", default-features = false, features = ["json", "rustls-tls"] }
serde = { version = "=1.0.229", features = ["derive"] }
serde_json = "=1.0.154"
anyhow = "=1.0.104"
dotenv = "=0.15.0"
lazy_static = "=1.5.1"
async_once = "=0.2.6"
log = "=0.4.35"
