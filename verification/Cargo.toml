[package]
name = "extension_hub"
version = "0.1.0"
edition = "2021"
publish = false

[dependencies]
anyhow = "1"
axum = { version = "0.7", features = ["multipart"] }
blake3 = { version = "1", features = ["pure"] }
bytes = "1"
clap = { version = "4", features = ["derive"] }
config = { version = "0.14", default-features = false, features = ["yaml"] }
dashmap = "6"
figment = { version = "0.10", features = ["toml"] }
flate2 = "1"
futures = "0.3"
globset = "0.4"
http = "1"
http-body = "1"
prost = "0.13"
rand = "0.8"
serde = { version = "1", features = ["derive"] }
shellexpand = "3"
tar = "0.4"
thiserror = "1"
tokio = { version = "1", features = ["full"] }
tokio-util = { version = "0.7", features = ["io"] }
tonic = "0.12"
tower-http = { version = "0.5", features = ["fs", "limit"] }
tower-service = "0.3"
tracing = "0.1"
tracing-subscriber = { version = "0.3", features = ["env-filter"] }
walkdir = "2"
