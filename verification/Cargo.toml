[package]
name = "verify_dispatch"
version = "0.1.0"
edition = "2021"
publish = false

[dependencies]
axum = "0.7"
chrono = { version = "0.4", default-features = false, features = ["clock"] }
serde = { version = "1", features = ["derive"] }
tokio = { version = "1", features = ["rt"] }
tracing = "0.1"
uuid = { version = "1", features = ["v4"] }
