[package]
name = "printerlynx"
version = "0.1.0"
edition = "2021"
publish = false

[dependencies]
async-trait = "0.1"
axum = { version = "0.6", features = ["headers", "multipart", "ws"] }
chrono = "0.4"
dotenvy = "0.15"
futures-util = "0.3"
jsonwebtoken = "9"
lapin = { version = "2", default-features = false }
password-auth = "1"
rust-s3 = "0.33"
sea-query = "0.30"
serde = { version = "1", features = ["derive"] }
serde_json = "1"
sha2 = "0.10"
sqlx = { version = "0.7", default-features = false, features = ["macros", "migrate", "mysql", "runtime-tokio"] }
thiserror = "1"
tokio = { version = "1", features = ["full"] }
tokio-serial = "5.4"
tower-http = { version = "0.4", features = ["cors", "trace"] }
tracing = "0.1"
tracing-subscriber = "0.3"
uuid = { version = "1", features = ["v4"] }
