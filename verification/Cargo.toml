[package]
name = "travis"
version = "0.1.1"
edition = "2021"
publish = false

[dependencies]
futures = "0.3"
hyper = { version = "0.14", features = ["client", "http1", "http2", "tcp", "stream"] }
hyper-tls = "0.5"
log = "0.4"
percent-encoding = "2"
serde = { version = "1", features = ["derive"] }
serde_json = "1"
tokio = { version = "1", features = ["rt", "rt-multi-thread"] }
url = "2"
