[package]
name = "rq_engine"
version = "0.1.0"
edition = "2021"
publish = false

[dependencies]
anyhow = "1"
bytes = "1"
futures = "0.3"
md5 = "0.7"
prost = "0.9"
tokio = { version = "1", features = ["io-std", "io-util", "macros", "rt", "sync"] }
tokio-util = { version = "0.6", features = ["codec"] }
