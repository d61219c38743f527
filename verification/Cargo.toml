[package]
name = "envtrackernode"
version = "0.1.0"
edition = "2021"
publish = false

[dependencies]
base64 = "=0.22.1"
urlencoding = "=2.1.3"
url = { version = "=2.5.8", features = ["serde"] }
serde = { version = "=1.0.229", features = ["derive"] }
serde_json = "=1.0.154"
toml = "=1.1.8"
clap = { version = "=4.6.7", features = ["derive"] }
tokio = { version = "=1.54.1", features = ["full"] }
axum = "=0.8.9"
axum-extra = { version = "=0.12.6", features = ["cookie-private"] }
tower = { version = "=0.5.3", features = ["util", "timeout"] }
tower-http = { version = "=0.7.1", features = ["cors", "fs", "timeout", "trace"] }
http = "=1.5.0"
http-body-util = "=0.1.5"
tracing = "=0.1.44"
tracing-subscriber = { version = "=0.3.23", features = ["env-filter"] }
reqwest-middleware = { version = "=0.5.2", features = ["json", "form", "query"] }
tokio-cron-scheduler = "=0.15.1"
tokio-memq = "=1.0.0"
kasa-core = "=0.6.0"
axum-oidc-client = "=0.7.0"
tower-sessions = "=0.15.0"
gcp_auth = "=0.12.7"
serde-xml-rs = "=0.8.2"
uuid = { version = "=1.29.0", features = ["v4"] }
chrono = "=0.4.45"
futures-util = "=0.3.34"
rustls = "=0.23.46"
