[package]
name = "my_feed"
version = "0.1.0"
edition = "2021"
publish = false

[dependencies]
axum = "0.8"
chrono = { version = "0.4", features = ["serde"] }
color-eyre = "0.6"
futures = "0.3"
http = "1"
http-serde = "2"
humantime-serde = "1"
reqwest = { version = "0.12", default-features = false }
rss = "2"
rustc-hash = "2"
scraper = "*"
serde = { version = "1", features = ["derive"] }
serde-env = "*"
serde_json = "1"
sqlx = { version = "0.8", default-features = false, features = ["sqlite", "runtime-tokio", "chrono", "derive"] }
thiserror = "2"
tokio = { version = "1", features = ["full"] }
tower-http = { version = "0.6", features = ["cors", "normalize-path", "trace"] }
tracing = "0.1"
tracing-subscriber = { version = "0.3", features = ["env-filter"] }
ts-rs = { version = "*", features = ["chrono-impl"] }
