[package]
name = "htmx-headers"
version = "0.1.0"
edition = "2021"
publish = false

[dependencies]
axum-core = "*"
axum-extra = { version = "*", default-features = false, features = ["typed-header"] }
bytes = "1"
futures-core = "0.3"
headers-core = "0.3"
http = "1"
http-serde = "2"
serde = "1"
serde_json = "1"
tower-layer = "0.3"
tower-service = "0.3"
