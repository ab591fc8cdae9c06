[package]
name = "sync_core"
version = "0.1.0"
edition = "2021"
publish = false

[dependencies]
anyhow = "=1.0.104"
axum = { version = "=0.6.20", features = ["ws"] }
chrono = { version = "=0.4.45", default-features = false, features = ["clock", "std", "serde"] }
futures-util = "=0.3.34"
hyper = { version = "=0.14.32", features = ["client", "http1", "tcp"] }
serde = { version = "=1.0.229", features = ["derive"] }
serde_json = "=1.0.154"
sqlx = { version = "=0.7.4", default-features = false, features = ["postgres", "runtime-tokio", "chrono"] }
tokio = { version = "=1.54.1", features = ["macros", "rt-multi-thread", "sync"] }
tracing = "=0.1.44"
