[package]
name = "relay_apps"
version = "0.1.0"
edition = "2021"
publish = false

[dependencies]
axum = "0.7"
tokio = { version = "1", features = ["rt", "rt-multi-thread", "sync", "time"] }
tower = { version = "0.5", features = ["buffer", "limit", "timeout", "util"] }
tower-http = { version = "0.6", features = ["limit"] }
