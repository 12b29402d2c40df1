[package]
name = "sedentary_tracker"
version = "0.1.0"
edition = "2021"
publish = false

[dependencies]
argon2 = "0.5"
async-stream = "0.3"
axum = "0.7"
chrono = { version = "0.4", features = ["serde"] }
dotenvy = "0.15"
futures = "0.3"
jsonwebtoken = "9"
redis = { version = "0.25", features = ["tokio-comp"] }
serde = { version = "1", features = ["derive"] }
serde_json = "1"
serialport = { version = "4", default-features = false }
sqlx = { version = "0.7", default-features = false, features = ["runtime-tokio", "postgres", "uuid", "chrono"] }
tokio = { version = "1", features = ["full"] }
tower-http = { version = "0.5", features = ["fs"] }
tracing-subscriber = "0.3"
uuid = { version = "1", features = ["v4", "serde"] }
