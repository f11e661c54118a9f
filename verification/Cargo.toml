[package]
name = "backend"
version = "0.1.0"
edition = "2021"
publish = false

[dependencies]
anyhow = "1"
argon2 = { version = "0.5", features = ["std"] }
axum = "0.7"
chrono = { version = "0.4", features = ["serde"] }
serde = { version = "1", features = ["derive"] }
serde_json = "1"
sqlx = { version = "0.8", default-features = false, features = ["postgres", "runtime-tokio", "uuid", "chrono", "json", "derive", "migrate"] }
thiserror = "1"
time = "0.3"
tokio = { version = "1", features = ["full"] }
tower-sessions = "0.13"
tower-sessions-sqlx-store = { version = "0.14", features = ["postgres"] }
tracing = "0.1"
tracing-subscriber = { version = "0.3", features = ["env-filter"] }
uuid = { version = "1", features = ["v4", "serde"] }
