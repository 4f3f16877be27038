[package]
name = "fetchkit"
version = "0.1.3"
edition = "2021"
publish = false

[dependencies]
reqwest = { version = "=0.13.5", default-features = false, features = ["json", "multipart", "form", "query"] }
reqwest-middleware = { version = "=0.5.2", features = ["json", "multipart", "form", "query"] }
reqwest-retry = "=0.9.1"
http = "=1.5.0"
serde = { version = "=1.0.229", features = ["derive"] }
serde_json = "=1.0.154"
thiserror = "=2.0.21"
anyhow = "=1.0.104"
async-trait = "=0.1.92"
breaker = "=2.0.2"
