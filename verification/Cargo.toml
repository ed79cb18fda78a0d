[package]
name = "wallet_bridge"
version = "0.1.0"
edition = "2021"
publish = false

[dependencies]
tokio = { version = "1", features = ["sync", "time", "rt", "rt-multi-thread"] }
serde_json = "1"
http = "1"
chrono = "0.4"
