[package]
name = "zero2prod"
version = "0.1.0"
edition = "2021"
publish = false

[dependencies]
anyhow = "1"
axum = "*"
chrono = { version = "*", default-features = false, features = ["clock"] }
derive_builder = "*"
dotenvy = "*"
serde = { version = "1", features = ["derive"] }
serde_json = "1"
sqlx = { version = "*", default-features = false, features = ["runtime-tokio", "postgres", "chrono", "uuid"] }
thiserror = "*"
tokio = { version = "1", features = ["rt-multi-thread", "macros", "signal"] }
tracing = "*"
tracing-bunyan-formatter = "*"
tracing-subscriber = { version = "*", features = ["env-filter"] }
uuid = { version = "1", features = ["v4"] }
