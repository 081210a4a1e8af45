[package]
name = "up-transport-vsomeip"
version = "0.1.0"
edition = "2021"
publish = false

[dependencies]
up-rust = "=0.9.0"
protobuf = "=3.7.2"
bimap = "=0.6.3"
serde = { version = "=1.0.229", features = ["derive"] }
serde_json = "=1.0.154"
tokio = { version = "=1.54.1", features = ["rt-multi-thread", "sync", "time"] }
