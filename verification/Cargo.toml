[package]
name = "shelf_sync"
version = "0.1.0"
edition = "2021"
publish = false

[dependencies]
scraper = "=0.29.0"
anyhow = "=1.0.104"
askama = "=0.16.1"
axum = "=0.8.9"
axum-macros = "=0.5.1"
axum-server = "=0.8.0"
dotenv = "=0.15.0"
reqwest = { version = "=0.13.5", default-features = false, features = ["json", "blocking", "multipart"] }
serde = { version = "=1.0.229", features = ["derive"] }
serde_json = "=1.0.154"
sqlx = { version = "=0.9.0", default-features = false, features = ["postgres", "runtime-tokio", "derive", "migrate"] }
tokio = { version = "=1.54.1", features = ["rt-multi-thread", "macros"] }
tower-http = { version = "=0.7.1", features = ["fs"] }
