[package]
name = "polaris"
version = "0.1.0"
edition = "2021"
publish = false

[dependencies]
axum = "0.8"
axum-extra = { version = "0.10", features = ["typed-header"] }
axum-range = "0.5"
http = "1"
regex = "1"
serde = { version = "1", features = ["derive"] }
serde_json = "1"
tokio = { version = "1", features = ["fs"] }
tower-http = { version = "0.6", features = ["compression-gzip", "compression-deflate", "compression-br"] }
utoipa = "5"
utoipa-axum = "0.2"
