[package]
name = "asgi_io"
version = "0.1.0"
edition = "2021"
publish = false

[dependencies]
anyhow = "1"
futures = "0.3"
http-body-util = "0.1"
hyper = { version = "1", features = ["http1", "server"] }
log = "0.4"
pyo3 = { version = "0.20", default-features = false, features = ["abi3-py38", "extension-module"] }
tokio = { version = "1", features = ["fs", "io-util", "rt", "sync"] }
tokio-stream = "0.1"
tokio-tungstenite = "0.21"
tokio-util = { version = "0.7", features = ["io"] }
