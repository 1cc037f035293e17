[package]
name = "spotify_banger"
version = "0.1.0"
edition = "2021"
publish = false

[dependencies]
base64 = "=0.13.1"
rand = "=0.8.8"
serde_urlencoded = "=0.7.1"
serde = { version = "1", features = ["derive"] }
serde_json = "1"
axum = "=0.5.17"
reqwest = { version = "=0.11.27", default-features = false, features = ["json"] }
tokio = { version = "1", features = ["rt", "net"] }
tower = "0.4"
tower-http = { version = "0.3", features = ["cors", "fs", "trace", "util"] }
tracing = "0.1"
tracing-subscriber = { version = "0.3", features = ["env-filter"] }
dotenv = "0.15"
gloo-net = "0.2"
gloo-storage = "=0.2.2"
gloo-utils = "=0.1.7"
instant = "=0.1.13"
