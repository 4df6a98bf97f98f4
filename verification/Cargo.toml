[package]
name = "proxy_core"
version = "0.1.0"
edition = "2021"
publish = false

[dependencies]
anyhow = "1"
futures = "0.3"
h2 = "0.4"
hickory-proto = "0.24"
hickory-server = "0.24"
http = "1"
hyper = "1"
ppp = "2"
rand = "0.8"
thiserror = "1"
tokio = { version = "1", features = ["io-util", "net", "rt", "time"] }
tracing = "0.1"
