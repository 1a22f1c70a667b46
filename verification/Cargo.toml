[package]
name = "patrol"
version = "0.1.0"
edition = "2021"
publish = false

[dependencies]
anyhow = "1"
argon2 = "0.5"
password-hash = { version = "0.5", features = ["getrandom"] }
base64 = "0.22"
chrono = "0.4"
dotenvy = "0.15"
jsonwebtoken = "9"
log = "0.4"
poem = { version = "3", features = ["cookie"] }
poem-openapi = "5"
pretty_env_logger = "0.5"
redis = { version = "0.27", default-features = false, features = ["tokio-comp", "connection-manager"] }
rsa = "0.9"
sea-orm = { version = "1", default-features = false, features = ["macros", "sqlx-sqlite", "runtime-tokio-rustls", "with-chrono", "with-uuid"] }
serde = { version = "1", features = ["derive"] }
serde_json = "1"
tera = { version = "1", default-features = false }
tokio = { version = "1", features = ["full"] }
