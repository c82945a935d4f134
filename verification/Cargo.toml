[package]
name = "proxy_core"
version = "0.1.0"
edition = "2021"
publish = false

[dependencies]
anyhow = "1"
rand = "0.8"
rand_chacha = "0.3"
serde_json = "1"
tokio = { version = "1", features = ["io-util", "sync", "time", "macros", "rt", "net"] }
tracing = "0.1"
