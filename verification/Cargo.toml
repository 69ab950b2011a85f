[package]
name = "axum_serde_boundary"
version = "0.1.0"
edition = "2021"
publish = false

[dependencies]
axum = "=0.8.9"
http-body-util = "=0.1.5"
serde = { version = "=1.0.229", features = ["derive"] }
serde-stream-formats = "=0.1.0"
tokio = { version = "=1.54.1", features = ["rt", "rt-multi-thread", "macros", "sync"] }
tokio-stream = "=0.1.19"
tokio-util = { version = "=0.7.20", features = ["io", "io-util"] }

[dev-dependencies]
tower = { version = "=0.5.3", features = ["util"] }
serde_json = "=1.0.154"
rmp-serde = "=1.3.1"
