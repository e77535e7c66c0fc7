[package]
name = "voice_handler"
version = "0.1.0"
edition = "2021"
publish = false

[dependencies]
futures = "0.3"
tokio = { version = "1", features = ["sync", "rt"] }
serde_json = "1"
