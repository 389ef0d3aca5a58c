[package]
name = "icon_cache"
version = "0.1.0"
edition = "2021"
publish = false

[dependencies]
base64 = "0.22"
sha2 = "0.10"
url = "2"
axum = "0.7"
tokio = { version = "1", features = ["fs", "net", "rt-multi-thread"] }
serde = { version = "1", features = ["derive"] }
tracing = "0.1"
once_cell = "1"
port_scanner = "0.1"

[dev-dependencies]
bincode = "1"
