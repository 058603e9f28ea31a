[package]
name = "framed_relay"
version = "0.1.0"
edition = "2021"
publish = false

[dependencies]
interprocess = { version = "2", features = ["tokio"] }
serde = { version = "1", features = ["derive"] }
serde_json = "1"
tokio = { version = "1", features = ["io-util", "io-std", "macros", "rt-multi-thread", "sync", "time"] }
log = "0.4"
env_logger = "*"
