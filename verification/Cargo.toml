[package]
name = "ivan_scraper"
version = "0.1.0"
edition = "2021"
publish = false

[dependencies]
ammonia = "=4.2.4"
anyhow = "1"
axum = "=0.7.9"
chrono = { version = "0.4", features = ["serde"] }
chrono-tz = "0.10"
dashmap = "6"
dotenvy = "0.15"
lettre = { version = "0.11", default-features = false, features = ["builder", "smtp-transport", "tokio1", "tokio1-rustls-tls", "hostname"] }
quick-xml = { version = "=0.42.0", features = ["serialize"] }
reqwest = { version = "0.12", default-features = false, features = ["json", "rustls-tls"] }
rust_xlsxwriter = "=0.102.0"
serde = { version = "1", features = ["derive"] }
serde_json = "1"
sqlx = { version = "=0.8.6", default-features = false, features = ["runtime-tokio", "postgres", "chrono", "migrate", "macros"] }
tera = { version = "=2.4.0", features = ["glob_fs"] }
tokio = { version = "1", features = ["full"] }
tokio-cron-scheduler = "=0.15.1"
tower-sessions = "0.13"
tower-sessions-sqlx-store = { version = "0.14", features = ["postgres"] }
tracing = "0.1"
tracing-subscriber = { version = "0.3", features = ["env-filter"] }
uuid = { version = "=1.29.0", features = ["v4"] }
