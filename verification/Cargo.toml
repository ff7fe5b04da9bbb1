[package]
name = "rate_tunnel"
version = "0.1.0"
edition = "2021"
publish = false

[dependencies]
tokio = { version = "1", features = ["net", "io-util", "rt-multi-thread", "macros", "time"] }
hyper = { version = "0.14", features = ["client", "http1", "http2"] }
async-speed-limit = "*"
pin-project = "*"
tracing = "*"
