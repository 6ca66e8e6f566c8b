[package]
name = "fetch_analyze"
version = "0.1.0"
edition = "2021"
publish = false

[dependencies]
tokio = { version = "*", features = ["rt-multi-thread"] }
reqwest = { version = "*", default-features = false }
futures = "*"
log = "*"
env_logger = "*"
