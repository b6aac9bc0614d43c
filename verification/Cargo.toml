[package]
name = "subscription_service"
version = "0.1.0"
edition = "2021"
publish = false

[dependencies]
axum = "0.7"
axum-macros = "0.4"
chrono = { version = "0.4", features = ["serde"] }
serde = { version = "1", features = ["derive"] }
serde_json = "1"
tokio = { version = "1", features = ["full"] }
tokio-postgres = { version = "0.7", features = ["with-chrono-0_4", "with-serde_json-1"] }
