[package]
name = "wagi_provider"
version = "0.1.0"
edition = "2021"
publish = false

[dependencies]
serde_json = { version = "1", features = ["preserve_order"] }
anyhow = "1"
tokio = { version = "1", features = ["rt", "sync", "net", "fs", "time", "macros", "io-util"] }
hyper = { version = "0.14", features = ["server", "http1", "tcp"] }
tempfile = "3"
