[package]
name = "api_edge"
version = "0.1.0"
edition = "2021"
publish = false

[dependencies]
axum = "=0.1.3"
tokio = { version = "=1.54.1", features = ["full", "test-util"] }
tower = { version = "=0.4.13", features = ["timeout", "util"] }
tower-http = { version = "=0.1.3", features = ["trace"] }

[dev-dependencies]
hyper = "=0.14.32"
