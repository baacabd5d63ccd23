[package]
name = "runner_switch"
version = "0.1.0"
edition = "2021"
publish = false

[dependencies]
tokio = { version = "1", features = ["full"] }
axum = "0.8"
clap = { version = "4", features = ["derive"] }
eyre = "0.6"
futures = "0.3"
serde = { version = "1", features = ["derive"] }
tokio-stream = { version = "0.1", features = ["sync"] }
toml = "*"
tracing = "0.1"
tracing-subscriber = { version = "0.3", features = ["env-filter"] }
url = { version = "2", features = ["serde"] }
