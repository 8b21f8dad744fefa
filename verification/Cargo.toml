[package]
name = "auth_service"
version = "0.1.0"
edition = "2021"
publish = false

[dependencies]
validator = "*"
uuid = { version = "*", features = ["v4"] }
rand = "*"
hmac = "*"
sha2 = "*"
serde = { version = "*", features = ["derive"] }
serde_json = "*"
axum = "*"
axum-extra = { version = "*", features = ["cookie"] }
tokio = { version = "*", features = ["macros", "rt-multi-thread", "net", "sync"] }
redis = "*"
sqlx = { version = "*", features = ["postgres", "runtime-tokio"] }
argon2 = "*"
dotenvy = "*"
lazy_static = "*"
async-trait = "*"
