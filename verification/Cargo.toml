[package]
name = "bevy_firebase"
version = "0.1.0"
edition = "2021"
publish = false

[dependencies]
url = "=2.5.8"
serde = { version = "=1.0.229", features = ["derive"] }
serde_json = "=1.0.154"
reqwest = { version = "=0.11.27", default-features = false, features = ["json", "multipart", "rustls-tls"] }
dirs = "=5.0.1"
ron = "=0.8.1"
tonic = { version = "=0.9.2", features = ["tls"] }
prost = "=0.11.9"
futures-lite = "=1.13.0"
bevy = { version = "=0.11.3", default-features = false }
bevy-tokio-tasks = "=0.11.0"
