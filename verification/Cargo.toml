[package]
name = "auth_core"
version = "0.1.0"
edition = "2021"
publish = false

[dependencies]
rand = "0.8"
chrono = "0.4"
validator = "0.16"
bcrypt = "0.15"
axum = { version = "0.6", features = ["headers"] }
axum-extra = { version = "0.7", features = ["cookie"] }
cookie = "0.17"
http = "0.2"
reqwest = { version = "0.11", default-features = false, features = ["blocking", "json"] }
serde = { version = "1", features = ["derive"] }
serde_json = "1"
tokio = { version = "1", features = ["macros", "rt-multi-thread"] }
anyhow = "1"
tracing = "0.1"
tracing-subscriber = "0.3"
