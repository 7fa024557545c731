[package]
name = "sabi"
version = "0.1.0"
edition = "2021"
publish = false

[dependencies]
async-session = "3.0"
axum = { version = "0.6", features = ["headers"] }
derive_more = "0.99"
dotenv = "0.15"
headers = "0.3"
http = "0.2"
hyper = { version = "0.14", features = ["full"] }
oauth2 = { version = "4.4", default-features = false }
redis = { version = "0.23", features = ["tokio-comp"] }
reqwest = { version = "0.11", default-features = false, features = ["json", "rustls-tls"] }
serde = { version = "1", features = ["derive"] }
serde_derive = "1"
serde_json = "1"
tokio = { version = "1", features = ["full"] }
tower-http = { version = "0.4", features = ["cors", "trace"] }
tracing = "0.1"
tracing-subscriber = { version = "0.3", features = ["env-filter"] }
