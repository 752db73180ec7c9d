[package]
name = "easytier_gui"
version = "0.1.0"
edition = "2021"
publish = false

[dependencies]
cidr = "=0.2.3"
dashmap = "=6.2.1"
url = "=2.5.8"
uuid = "=1.29.0"
anyhow = "1"
chrono = "0.4"
gethostname = "0.5"
serde = { version = "1", features = ["derive"] }
serde_json = "1"
tokio = { version = "1", features = ["rt", "time", "sync"] }
toml = "0.8"
