[package]
name = "jelly_stats"
version = "0.1.0"
edition = "2021"
publish = false

[dependencies]
serde_json = { version = "=1.0.154", features = ["raw_value"] }
tl = "=0.7.8"
url = { version = "=2.5.8", features = ["serde"] }
chrono = { version = "=0.4.45", features = ["serde"] }
humantime = "=2.4.0"
reqwest = { version = "=0.12.28", default-features = false, features = ["blocking", "cookies", "rustls-tls"] }
serde = { version = "=1.0.229", features = ["derive"] }
axum = "=0.8.9"
tokio = { version = "=1.54.1", features = ["rt-multi-thread", "macros", "net", "time"] }
anyhow = "=1.0.104"
thiserror = "=2.0.21"
log = "=0.4.35"
pretty_env_logger = "=0.5.0"
dotenv = "=0.15.0"
slacko = "=0.2.2"
serde_urlencoded = "=0.7.1"
