[package]
name = "samsung-tv-rs"
version = "0.2.0"
edition = "2021"
publish = false

[dependencies]
base64 = "0.22"
futures = "0.3"
futures-util = "0.3"
native-tls = "0.2"
reqwest = { version = "0.12", features = ["json", "blocking"] }
serde = { version = "1", features = ["derive"] }
serde_json = "1"
thiserror = "1"
tokio = { version = "1", features = ["full"] }
tokio-tungstenite = { version = "0.24", features = ["native-tls"] }
tungstenite = "0.24"
tracing = "0.1"
url = "2"
