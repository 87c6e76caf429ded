[package]
name = "proxy"
version = "0.1.0"
edition = "2021"
publish = false

[dependencies]
http = "0.2"
axum = "0.6"
hyper = { version = "0.14", features = ["client", "http1", "server", "tcp"] }
tokio = { version = "1", features = ["sync", "rt-multi-thread", "macros"] }
tower = { version = "0.4", features = ["filter", "util"] }
bytes = "1"
futures = "0.3"
anyhow = "1"
thiserror = "1"
tracing = "0.1"
tracing-subscriber = { version = "0.3", features = ["env-filter", "fmt", "registry"] }
