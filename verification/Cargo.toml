[package]
name = "application_server"
version = "0.2.0"
edition = "2021"
publish = false

[dependencies]
serde = { version = "=1.0.229", features = ["derive"] }
serde_json = "=1.0.154"
uuid = { version = "=1.29.0", features = ["v4", "serde"] }
chrono = { version = "=0.4.45", features = ["serde"] }
sha2 = "=0.10.9"
thiserror = "=2.0.21"
tokio = { version = "=1.54.1", features = ["rt-multi-thread", "macros", "sync", "time"] }
axum = "=0.8.9"
tonic = "=0.12.3"
tracing = "=0.1.44"
async-stream = "=0.3.6"
tokio-stream = "=0.1.19"
anyhow = "=1.0.104"
polars = { version = "*", default-features = false, features = ["lazy", "parquet"] }
