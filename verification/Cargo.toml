[package]
name = "cle_tracker"
version = "0.1.0"
edition = "2021"
publish = false

[dependencies]
serde_json = "*"
sha2 = "*"
serde = { version = "*", features = ["derive"] }
axum = "*"
tokio = { version = "*", features = ["full"] }
tower-cookies = "*"
tower-http = { version = "*", features = ["cors"] }
sea-orm = { version = "*", default-features = false, features = ["sqlx-sqlite", "runtime-tokio-rustls"] }
reqwest = { version = "*", default-features = false, features = ["json", "rustls-tls"] }
anyhow = "*"
dotenvy = "*"
uuid = { version = "*", features = ["v4"] }
chrono = { version = "*", features = ["serde"] }
serde_with = "*"
