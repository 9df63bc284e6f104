[package]
name = "song_catalog"
version = "0.1.0"
edition = "2021"
publish = false

[dependencies]
serde_json = "1"
axum = "0.8"
tokio = { version = "1", features = ["rt-multi-thread", "macros", "net"] }
tower = "0.5"
tower-http = { version = "0.6", features = ["cors", "trace"] }
tracing = "0.1"
env_logger = "0.11"
sqlx = { version = "0.8", default-features = false, features = ["sqlite", "runtime-tokio"] }
