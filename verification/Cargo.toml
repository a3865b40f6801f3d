[package]
name = "engine_prune"
version = "0.1.0"
edition = "2021"
publish = false

[dependencies]
tokio = { version = "1", features = ["sync"], default-features = false }
futures = "0.3"
