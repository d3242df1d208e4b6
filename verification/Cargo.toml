[package]
name = "maelstrom"
version = "0.1.0"
edition = "2021"
publish = false

[dependencies]
serde = { version = "1", features = ["derive"] }
serde_json = "1"
tokio = { version = "1", features = ["rt", "rt-multi-thread", "io-std", "io-util", "sync", "macros", "time"] }
async-trait = "0.1"
futures = "0.3"
tokio-context = "0.1"
env_logger = "*"
log = "0.4"
simple-error = "0.3"
