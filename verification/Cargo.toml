[package]
name = "server"
version = "0.1.0"
edition = "2021"
publish = false

[dependencies]
anyhow = "1"
axum = { version = "0.8", features = ["macros"] }
axum-extra = { version = "0.10", features = ["typed-header"] }
bytes = "1"
clap = { version = "4", features = ["derive"] }
futures = "0.3"
log-panics = "2"
serde = { version = "1", features = ["derive"] }
serde_json = "1"
thiserror = "2"
tokio = { version = "1", features = ["full"] }
tokio-stream = { version = "0.1", features = ["sync"] }
tokio-util = "0.7"
tower = "0.5"
tower-http = { version = "0.6", features = ["fs", "trace"] }
tower-oauth2-resource-server = "*"
tracing = "0.1"
tracing-stackdriver = "*"
tracing-subscriber = { version = "0.3", features = ["env-filter", "fmt"] }
webrtc = "0.13"
