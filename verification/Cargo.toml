[package]
name = "shaayud_core"
version = "0.1.0"
edition = "2021"
publish = false

[dependencies]
chrono = { version = "=0.4.45", features = ["serde"] }
regex = "=1.13.1"
serde = { version = "=1.0.229", features = ["derive"] }
serde_json = "=1.0.154"
http = "=1.5.0"
neo4rs = "=0.8.0"
tokio = { version = "=1.54.1", features = ["macros", "rt-multi-thread", "sync"] }
tracing = "=0.1.44"
vercel_runtime = "=1.1.6"
reqwest = { version = "=0.13.5", default-features = false, features = ["blocking", "json"] }
napi = "=3.16.1"
napi-derive = "=3.7.0"
