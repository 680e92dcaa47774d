[package]
name = "gateway"
version = "0.1.0"
edition = "2021"
publish = false

[dependencies]
axum = { version = "=0.5.17", features = ["headers"] }
bollard = "=0.13.0"
hyper = { version = "=0.14.32", features = ["client", "http1", "tcp"] }
hyper-reverse-proxy = "=0.5.1"
rand = "=0.8.8"
serde = { version = "=1.0.229", features = ["derive"] }
sqlx = { version = "=0.6.3", default-features = false, features = ["runtime-tokio-rustls", "sqlite", "json", "migrate"] }
tokio = { version = "=1.54.1", features = ["rt", "rt-multi-thread", "sync", "macros"] }
tracing = "=0.1.44"

[dev-dependencies]
serde_json = "=1.0.154"
