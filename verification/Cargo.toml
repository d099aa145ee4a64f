[package]
name = "axum_negotiator"
version = "0.1.0"
edition = "2021"
publish = false

[dependencies]
askama = "0.14"
askama_web = { version = "0.14", features = ["axum-0.8"] }
axum = "0.8"
axum-extra = { version = "0.10", features = ["typed-header", "form"] }
futures = "0.3"
mime = "0.3"
serde = { version = "1", features = ["derive"] }
tower-layer = "0.3"
tower-service = "0.3"
