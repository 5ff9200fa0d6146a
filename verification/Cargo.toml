[package]
name = "auth_core"
version = "0.1.0"
edition = "2021"
publish = false

[dependencies]
argon2 = "=0.6.0"
jsonwebtoken = { version = "=11.1.0", features = ["rust_crypto"] }
serde = { version = "*", features = ["derive"] }
serde_json = "*"
uuid = { version = "*", features = ["v4"] }
chrono = "*"
axum = "*"
tokio = { version = "*", features = ["macros", "rt-multi-thread"] }
sqlx = { version = "*", default-features = false, features = ["runtime-tokio", "postgres"] }
tower-http = { version = "*", features = ["cors"] }
dotenvy = "*"
hyper = "*"
tracing-subscriber = { version = "*", features = ["env-filter"] }
