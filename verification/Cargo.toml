[package]
name = "client_tls"
version = "0.1.0"
edition = "2021"
publish = false

[dependencies]
tokio = { version = "1", features = ["io-util", "rt", "sync", "macros"] }
tokio-rustls = "0.26"
tracing = "0.1"

[dev-dependencies]
rcgen = "0.14"
