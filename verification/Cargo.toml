[package]
name = "wreq_core"
version = "0.1.0"
edition = "2021"
publish = false

[dependencies]
bytes = "*"
tokio = { version = "*", features = ["rt-multi-thread", "sync", "time"] }
tokio-util = "*"
futures-util = "*"
