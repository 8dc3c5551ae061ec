[package]
name = "binance_sdk_rs"
version = "0.1.0"
edition = "2021"
publish = false

[dependencies]
hex = "0.4"
hmac = "0.12"
sha2 = "0.10"
hyper = { version = "0.14", features = ["client", "http1", "http2", "tcp"] }
hyper-proxy = "0.9"
hyper-tls = "0.5"
tokio = { version = "1", features = ["macros", "rt-multi-thread"] }
log = "0.4"
env_logger = "0.10"
