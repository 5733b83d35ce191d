[package]
name = "gen-axum"
version = "0.1.0"
edition = "2021"
publish = false

[dependencies]
http = "1"
mime = "0.3"
ulid = "1"
anyhow = "1"
axum = "0.7"
serde = { version = "1", features = ["derive"] }
serde_json = "1"
serde_path_to_error = "0.1"
tracing = "0.1"
reqwest = { version = "0.12", default-features = false }
reqwest-middleware = "0.3"
reqwest-retry = "0.5"
retry-policies = "0.3"
metrics = "0.23"
async-trait = "0.1"
tokio = { version = "1", features = ["time", "macros", "rt-multi-thread", "net", "signal"] }
chrono = "0.4"
thiserror = "1"
