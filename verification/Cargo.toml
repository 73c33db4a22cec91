[package]
name = "proxy_cache"
version = "0.1.0"
edition = "2021"
publish = false

[dependencies]
anyhow = "1"
http = "0.2"
hyper = { version = "0.14", features = ["full"] }
hyper-rustls = "0.23"
tokio = { version = "1", features = ["full"] }
