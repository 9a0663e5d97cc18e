[package]
name = "auth_core"
version = "0.1.0"
edition = "2021"
publish = false

[dependencies]
argon2 = "=0.6.0"
base64 = "=0.23.1"
getrandom = "=0.4.3"
hmac = "=0.13.0"
sha2 = "=0.11.0"
jsonwebtoken = { version = "=11.1.0", features = ["rust_crypto"] }
serde_json = "=1.0.151"
uuid = { version = "=1.27.0", features = ["v4"] }
serde = { version = "=1.0.229", features = ["derive"] }
axum = "=0.8.9"
axum-extra = { version = "=0.12.6", features = ["cookie"] }
cookie = "=0.18.2"
chrono = "=0.4.45"
dotenv = "=0.15.0"
tokio = { version = "=1.53.2", features = ["macros", "rt-multi-thread", "signal", "net"] }
tower-http = { version = "=0.7.1", features = ["cors"] }
thiserror = "=2.0.21"
