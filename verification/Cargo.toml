[package]
name = "ko_game"
version = "0.1.0"
edition = "2021"
publish = false

[dependencies]
anyhow = "1"
rand = "0.8"
tokio = { version = "1", features = ["sync"] }
tracing = "0.1"
