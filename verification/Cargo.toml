[package]
name = "remote_runner"
version = "0.1.0"
edition = "2021"
publish = false

[dependencies]
bincode = "1.3"
console = "0.15"
serde = { version = "1", features = ["derive"] }
tokio = { version = "1", features = ["fs", "io-util", "net", "process", "rt", "sync", "time"] }
tracing = "0.1"
tracing-subscriber = "0.3"
