[package]
name = "ears"
version = "0.1.0"
edition = "2021"
publish = false

[dependencies]
url = "=2.5.8"
anyhow = "=1.0.104"
thiserror = "=1.0.69"
clap = { version = "=4.6.7", features = ["derive"] }
serde = { version = "=1.0.229", features = ["derive"] }
serde_json = "=1.0.154"
toml = "=0.8.23"
directories = "=5.0.1"
libc = "=0.2.191"
tokio = { version = "1", features = ["full"] }
reqwest = { version = "0.12", default-features = false, features = ["json", "multipart", "rustls-tls"] }
ratatui = "0.29"
crossterm = "0.28"
nix = { version = "0.29", features = ["signal", "process"] }
backoff = { version = "0.4", features = ["tokio"] }
base64 = "0.22"
futures-util = "0.3"
tokio-tungstenite = "0.24"
tracing = "0.1"
tracing-subscriber = { version = "0.3", features = ["env-filter"] }
voice_activity_detector = "0.2"
