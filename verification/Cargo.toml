[package]
name = "apalis-pubsub"
version = "0.1.0"
edition = "2021"
publish = false

[dependencies]
apalis-core = { version = "=1.0.0", features = ["uuid"] }
futures = "=0.3.34"
google-cloud-googleapis = "=0.16.1"
google-cloud-pubsub = "=0.30.0"
thiserror = "=2.0.21"
tokio = { version = "=1.54.1", features = ["rt", "sync"] }
tokio-stream = "=0.1.19"
tokio-util = "=0.7.20"
tower = "=0.5.3"
tracing = "=0.1.44"
uuid = "=1.29.0"
