[package]
name = "joblode"
version = "0.1.0"
edition = "2021"
publish = false

[dependencies]
anyhow = "=1.0.104"
async-trait = "=0.1.92"
axum = "=0.8.9"
dotenvy = "=0.15.7"
duckdb = { version = "=1.20000.1", default-features = false }
reqwest = { version = "=0.12.28", default-features = false, features = ["json", "rustls-tls"] }
rmcp = { version = "=3.8.0", features = ["server", "client", "macros", "transport-io", "transport-streamable-http-server"] }
schemars = "=1.2.3"
serde = { version = "=1.0.229", features = ["derive"] }
serde_json = "=1.0.154"
tokio = { version = "=1.54.1", features = ["full"] }
tokio-util = "=0.7.20"
tower-http = { version = "=0.6.11", features = ["fs", "trace"] }
tracing = "=0.1.44"
tracing-subscriber = { version = "=0.3.23", features = ["env-filter"] }
