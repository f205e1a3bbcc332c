[package]
name = "source_runtime"
version = "0.1.0"
edition = "2021"
publish = false

[dependencies]
serde_json = "*"
metrics = "*"
tokio = { version = "*", features = ["rt", "time", "net", "sync", "io-util", "macros"] }
