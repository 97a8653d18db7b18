[package]
name = "mmss"
version = "0.1.0"
edition = "2021"
publish = false

[dependencies]
anyhow = "1"
arrow2 = { version = "0.18", features = ["io_ipc"] }
axum = "0.7"
chrono = { version = "0.4", features = ["serde"] }
dotenvy = "0.15"
env_logger = "0.11"
log = "0.4"
num-complex = { version = "0.4", features = ["serde"] }
reqwest = { version = "0.12", default-features = false, features = ["json", "rustls-tls"] }
serde = { version = "1", features = ["derive"] }
serde_json = "1"
thiserror = "1"
tokio = { version = "1", features = ["macros", "net", "rt-multi-thread", "signal", "sync"] }
tower-http = { version = "0.5", features = ["cors", "fs", "trace"] }
uuid = { version = "1", features = ["serde", "v4"] }
