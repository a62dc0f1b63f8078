[package]
name = "resize_proxy"
version = "0.1.0"
edition = "2021"
publish = false

[dependencies]
image = "=0.24.9"
fast_image_resize = "=2.7.3"
axum = "=0.6.20"
tokio = { version = "1", features = ["full"] }
reqwest = { version = "=0.11.27", default-features = false }
clap = { version = "4", features = ["derive"] }
tower = { version = "0.4", features = ["timeout"] }
tower-http = { version = "=0.4.4", features = ["cors", "trace"] }
tracing = "0.1"
tracing-subscriber = "0.3"
hyper = "=0.14.32"
bytes = "1"
serde = { version = "1", features = ["derive"] }
