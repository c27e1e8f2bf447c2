[package]
name = "appinsights"
version = "0.1.0"
edition = "2021"
publish = false

[dependencies]
chrono = "=0.4.45"
crossbeam-queue = "=0.3.14"
futures-channel = "=0.3.34"
futures-util = "=0.3.34"
serde = { version = "=1.0.229", features = ["derive"] }
serde_json = "=1.0.151"
reqwest = { version = "=0.12.28", default-features = false }
tokio = { version = "=1.53.2", features = ["rt-multi-thread", "sync", "time", "macros"] }
