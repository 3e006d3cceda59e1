[package]
name = "mini_tokio"
version = "0.1.0"
edition = "2021"
publish = false

[dependencies]
bytes = "1"
futures = "0.3"
mini-redis = "0.4"
tokio = { version = "1", features = ["full"] }
