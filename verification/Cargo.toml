[package]
name = "analytics_api"
version = "0.1.0"
edition = "2021"
publish = false

[dependencies]
axum = "=0.8.9"
sea-orm = { version = "=1.1.20", default-features = false, features = ["macros", "with-chrono", "with-json", "with-uuid"] }
serde = { version = "=1.0.229", features = ["derive"] }
serde_json = "=1.0.154"
tracing = "=0.1.44"
uuid = { version = "=1.29.0", features = ["serde", "v7"] }
