[package]
name = "newtab_server"
version = "0.1.0"
edition = "2021"
publish = false

[dependencies]
jsonwebtoken = { version = "=11.1.0", features = ["rust_crypto"] }
base64 = "=0.23.1"
url = "=2.5.8"
uuid = { version = "=1.27.0", features = ["v4"] }
serde = { version = "*", features = ["derive"] }
serde_json = "*"
chrono = "*"
anyhow = "*"
dotenv = "*"
axum = "=0.8.9"
tokio = { version = "*", features = ["full"] }
tower-http = { version = "*", features = ["cors"] }
reqwest = { version = "=0.12.28", default-features = false, features = ["rustls-tls", "json"] }
sqlx = { version = "=0.9.0", default-features = false, features = ["runtime-tokio", "postgres", "chrono", "uuid"] }
async-stripe = { version = "=0.41.0", default-features = false, features = ["runtime-tokio-hyper-rustls", "checkout"] }
hmac = "*"
sha2 = "*"
hex = "*"
scraper = "=0.27.0"
resend-rs = "=0.34.0"
