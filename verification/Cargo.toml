[package]
name = "spica_engine"
version = "0.1.0"
edition = "2021"
publish = false

[dependencies]
jsonptr = "=0.8.2"
ulid = "1"
serde = { version = "=1.0.229", features = ["derive"] }
serde_json = "=1.0.154"
async-trait = "=0.1.92"
tokio = { version = "=1.54.1", features = ["sync", "macros", "rt"] }
tokio-stream = "=0.1.19"
tokio-util = "=0.7.20"
tracing = "=0.1.44"
