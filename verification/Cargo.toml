[package]
name = "webhook_server"
version = "0.1.0"
edition = "2021"
publish = false

[dependencies]
anyhow = "1"
env_logger = "0.9"
futures-util = "0.3"
hex = "0.4"
hmac = "0.10"
http = "0.2"
http-body = "0.4"
hyper = { version = "0.14", features = ["http1", "http2", "server", "runtime"] }
listenfd = "0.3"
log = "0.4"
serde = { version = "1", features = ["derive"] }
sha-1 = "0.9"
tokio = { version = "1", features = ["rt-multi-thread", "macros", "net", "process", "io-util", "time", "signal"] }
toml = "0.5"
tower-service = "0.3"
