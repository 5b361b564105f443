[package]
name = "server"
version = "0.1.0"
edition = "2021"
publish = false

[dependencies]
argon2 = { version = "=0.5.3", features = ["std"] }
axum = { version = "=0.8.9", features = ["multipart"] }
axum-extra = { version = "=0.10.3", features = ["typed-header"] }
chrono = { version = "=0.4.45", features = ["serde"] }
dotenvy = "=0.15.7"
image = { version = "=0.25.10", default-features = false, features = ["jpeg", "png", "gif", "webp", "bmp"] }
jsonwebtoken = "=9.3.1"
serde = { version = "=1.0.229", features = ["derive"] }
sqlx = { version = "=0.8.6", default-features = false, features = ["runtime-tokio", "sqlite", "chrono", "derive", "migrate"] }
tokio = { version = "=1.54.1", features = ["rt-multi-thread", "macros", "fs", "net"] }
tower-http = { version = "=0.6.11", features = ["fs", "cors"] }
tracing-subscriber = "=0.3.23"
uuid = { version = "=1.29.0", features = ["v4"] }
