[package]
name = "atpolis"
version = "0.1.0"
edition = "2021"
publish = false

[dependencies]
anyhow = "1"
atrium-api = "0.25"
atrium-identity = "0.1"
atrium-oauth = "0.1"
atrium-xrpc = "0.12"
axum = "0.8"
bsky-sdk = "0.1"
chrono = { version = "0.4", features = ["serde"] }
futures-util = "0.3"
hickory-resolver = "0.25"
sea-orm = { version = "1", default-features = false, features = ["macros", "with-chrono", "sqlx-sqlite", "runtime-tokio-rustls"] }
serde = { version = "1", features = ["derive"] }
serde_html_form = "0.2"
serde_json = "1"
tokio = { version = "1", features = ["full"] }
tokio-tungstenite = "0.26"
tower-http = { version = "0.6", features = ["cors"] }
tower-sessions = "0.14"
tracing = "0.1"
tracing-subscriber = "0.3"
url = "2"
uuid = { version = "1", features = ["v4"] }
zstd = "0.13"
