[package]
name = "sunrise_launcher"
version = "0.1.0"
edition = "2021"
publish = false

[dependencies]
serde = { version = "=1.0.229", features = ["derive"] }
tokio = { version = "=1.54.1", features = ["io-util", "process", "rt", "sync"] }
tokio-util = "=0.7.20"
