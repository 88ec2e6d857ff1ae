[package]
name = "symphony"
version = "0.1.0"
edition = "2021"
publish = false

[dependencies]
axum = "0.8"
chrono = { version = "0.4", features = ["serde"] }
serde = { version = "1", features = ["derive"] }
tokio = { version = "1", features = ["net", "rt", "rt-multi-thread", "sync", "time"] }
tokio-util = "0.7"
tracing = "0.1"
