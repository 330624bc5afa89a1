[package]
name = "crabrace"
version = "0.1.0"
edition = "2021"
publish = false

[dependencies]
anyhow = "=1.0.104"
axum = "=0.8.9"
config = "*"
dotenvy = "=0.15.7"
once_cell = "=1.21.4"
parking_lot = "=0.12.5"
prometheus = "=0.14.0"
reqwest = { version = "=0.13.5", default-features = false, features = ["json"] }
serde = { version = "=1.0.229", features = ["derive"] }
serde_json = "=1.0.151"
tokio = { version = "=1.53.2", features = ["rt-multi-thread", "net", "signal", "macros"] }
tower-http = { version = "=0.7.1", features = ["cors", "set-header", "trace", "compression-gzip"] }
tracing = "=0.1.44"
tracing-subscriber = { version = "=0.3.23", features = ["json"] }
