[package]
name = "nacos_binding"
version = "0.1.0"
edition = "2021"
publish = false

[dependencies]
nacos-sdk = "=0.8.3"
pyo3 = { version = "=0.30.1", features = ["experimental-async"] }
tokio = { version = "=1.54.1", features = ["rt-multi-thread"] }
tracing = "=0.1.44"
tracing-appender = "=0.2.5"
tracing-subscriber = "=0.3.23"
