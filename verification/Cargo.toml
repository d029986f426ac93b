[package]
name = "replica_monitor"
version = "0.1.0"
edition = "2021"
publish = false

[dependencies]
serde_json = "1"
rusqlite = "*"
tokio = { version = "1", features = ["rt", "macros", "time"] }
