[package]
name = "authcore"
version = "0.1.0"
edition = "2021"
publish = false

[dependencies]
jsonwebtoken = "=11.1.0"
rsa = { version = "=0.9.10", features = ["sha2"] }
base64 = "=0.22.1"
serde_json = "=1.0.151"
uuid = { version = "=1.27.0", features = ["v4"] }
serde = { version = "=1.0.229", features = ["derive"] }
chrono = { version = "=0.4.45", default-features = false, features = ["clock"] }
axum = "=0.8.9"
tokio = { version = "=1.53.2", features = ["rt-multi-thread", "macros", "net"] }
sqlx = { version = "=0.9.0", default-features = false, features = ["runtime-tokio", "postgres"] }
reqwest = { version = "=0.12.28", default-features = false, features = ["json", "rustls-tls"] }
tower-http = { version = "=0.7.1", features = ["cors", "set-header", "trace"] }
tracing-subscriber = "=0.3.23"
dotenvy = "=0.15.7"
