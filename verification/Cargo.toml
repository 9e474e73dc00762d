[package]
name = "z8_timer"
version = "0.1.0"
edition = "2021"
publish = false

[dependencies]
anyhow = "1"
chrono = "=0.4.45"
env_logger = "0.11"
log = "0.4"
parking_lot = "0.12"
rdev = "0.5"
reqwest = { version = "0.12", features = ["json"] }
rusqlite = { version = "0.32", features = ["bundled"] }
serde = { version = "1", features = ["derive"] }
serde_json = "1"
tokio = { version = "1", features = ["time"] }
url = "=2.5.8"
winreg = "0.52"
