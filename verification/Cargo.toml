[package]
name = "service_manager"
version = "0.1.0"
edition = "2021"
publish = false

[dependencies]
anyhow = "=1.0.104"
axum = "=0.8.9"
axum-prometheus = "=0.10.1"
chrono = "=0.4.45"
clap = { version = "=4.6.7", features = ["derive"] }
config = { version = "=0.15.27", default-features = false, features = ["toml"] }
log = "=0.4.34"
reqwest = { version = "=0.13.5", default-features = false, features = ["json", "query"] }
serde = { version = "=1.0.229", features = ["derive"] }
sqlx = { version = "=0.9.0", default-features = false, features = ["runtime-tokio", "sqlite", "chrono", "macros"] }
tokio = { version = "=1.53.2", features = ["rt-multi-thread", "macros", "signal", "net", "time", "sync"] }
tokio-util = "=0.7.19"
tower = { version = "=0.5.3", features = ["timeout", "util"] }
tower-http = { version = "=0.6.11", features = ["trace", "timeout"] }
utoipa = "=6.0.0"
