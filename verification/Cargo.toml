[package]
name = "shine_core"
version = "0.1.0"
edition = "2021"
publish = false

[dependencies]
anyhow = "1"
schemars = "1"
serde = { version = "1", features = ["derive"] }
serde_json = "1"
tokio = { version = "1", features = ["fs", "io-util", "process", "rt", "sync", "time"] }
toml = "*"
uuid = { version = "1", features = ["v4"] }
