[package]
name = "browser_commander"
version = "0.1.0"
edition = "2021"
publish = false

[dependencies]
serde = { version = "=1.0.229", features = ["derive"] }
serde_json = "=1.0.151"
url = "=2.5.8"
tokio = { version = "=1.53.2", features = ["rt-multi-thread", "macros", "time"] }
tokio-util = "=0.7.19"
tracing = "=0.1.44"
tracing-subscriber = "=0.3.23"
dirs = "=7.0.0"
anyhow = "=1.0.104"
