[package]
name = "nethernet"
version = "0.1.0"
edition = "2021"
publish = false

[dependencies]
async-trait = "0.1"
bytes = "1"
futures = "0.3"
rand = "0.10"
tokio = { version = "1", features = ["rt", "sync", "time", "macros", "io-util"] }
tokio-util = { version = "0.7", features = ["io"] }
tracing = "0.1"
webrtc = "0.20"
