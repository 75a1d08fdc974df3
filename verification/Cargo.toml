[package]
name = "robustmq"
version = "0.1.0"
edition = "2021"
publish = false

[dependencies]
uuid = { version = "=1.29.0", features = ["v4"] }
rustls-pemfile = "=2.2.0"
rustls-pki-types = "=1.15.1"
local-ip-address = "=0.6.13"
log = "=0.4.35"
tokio = { version = "=1.54.1", features = ["rt", "macros", "sync"] }
tokio-util = { version = "=0.7.20", features = ["codec"] }
futures-util = "=0.3.34"
