[package]
name = "aircade-api"
version = "0.1.0"
edition = "2021"
publish = false

[dependencies]
rand = "=0.8.8"
argon2 = "=0.5.3"
uuid = { version = "=1.29.0", features = ["v4"] }
chrono = "=0.4.45"
urlencoding = "=2.1.3"
jsonwebtoken = "=9.3.1"
serde = { version = "=1.0.229", features = ["derive"] }
serde_json = "=1.0.154"
axum = { version = "=0.8.9", features = ["ws", "multipart"] }
tokio = { version = "=1.54.1", features = ["full"] }
dashmap = "=6.2.1"
dotenvy = "=0.15.7"
tracing = "=0.1.44"
tracing-subscriber = { version = "=0.3.23", features = ["env-filter"] }
futures-util = "=0.3.34"
tower-http = { version = "=0.6.11", features = ["cors", "trace"] }
anyhow = "=1.0.104"
async-trait = "=0.1.92"
sea-orm = { version = "=1.1.20", default-features = false, features = ["sqlx-postgres", "runtime-tokio-rustls", "macros", "with-chrono", "with-uuid", "with-json"] }
sea-orm-migration = { version = "1.1.20", default-features = false, features = ["sqlx-postgres", "runtime-tokio-rustls"] }
reqwest = { version = "=0.12.28", default-features = false, features = ["json", "rustls-tls"] }
oauth2 = { version = "=5.0.0", default-features = false, features = ["reqwest", "rustls-tls"] }
