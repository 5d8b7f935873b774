[package]
name = "book_manager"
version = "0.1.0"
edition = "2021"
publish = false

[dependencies]
anyhow = "=1.0.104"
async-trait = "=0.1.92"
axum = "=0.7.9"
bcrypt = "=0.15.1"
chrono = { version = "=0.4.45", default-features = false, features = ["std", "clock", "serde"] }
derive-new = "=0.7.0"
garde = { version = "=0.20.0", features = ["derive", "email"] }
opentelemetry = "=0.24.0"
opentelemetry-otlp = { version = "=0.17.0", features = ["tonic"] }
opentelemetry_sdk = { version = "=0.24.1", features = ["rt-tokio"] }
redis = { version = "=0.27.6", features = ["tokio-comp"] }
serde = { version = "1", features = ["derive"] }
sqlx = { version = "=0.8.6", default-features = false, features = ["postgres", "runtime-tokio", "uuid", "chrono"] }
thiserror = "=1.0.69"
tokio = { version = "=1.54.1", features = ["full"] }
tower-http = { version = "=0.5.2", features = ["cors", "trace"] }
tracing = "=0.1.44"
tracing-opentelemetry = "=0.25.0"
tracing-subscriber = { version = "=0.3.23", features = ["env-filter", "json"] }
utoipa = { version = "=4.2.3", features = ["axum_extras", "uuid", "chrono"] }
utoipa-redoc = { version = "=4.0.0", features = ["axum"] }
uuid = { version = "=1.29.0", features = ["v4", "serde"] }
