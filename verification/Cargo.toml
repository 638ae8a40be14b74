[package]
name = "nebulafx"
version = "0.1.0"
edition = "2021"
publish = false

[dependencies]
http = "1"
humantime = "2"
tokio-util = "0.7"
tokio = { version = "1", features = ["rt-multi-thread", "signal", "sync", "time"] }
sqlx = { version = "0.8", default-features = false, features = ["postgres", "runtime-tokio"] }
toml = "0.8"
serde = { version = "1", features = ["derive"] }
serde_json = "1"
tracing = "0.1"
thiserror = "2"
chrono = "0.4"
axum = "0.8"
axum-extra = "0.10"
tower-http = { version = "0.6", features = ["catch-panic", "compression-gzip", "cors", "limit", "timeout", "trace"] }
