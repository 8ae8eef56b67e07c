[package]
name = "ether"
version = "0.1.0"
edition = "2021"
publish = false

[dependencies]
regex = "=1.13.1"
rand = "=0.8.8"
reqwest = { version = "=0.11.27", default-features = false, features = ["rustls-tls"] }
serenity = { version = "=0.11.7", default-features = false, features = ["builder", "cache", "chrono", "client", "gateway", "http", "model", "utils", "rustls_backend", "collector"] }
poise = "=0.5.7"
mongodb = "=2.8.2"
tokio = { version = "=1.54.1", features = ["macros", "rt-multi-thread", "sync"] }
futures = "=0.3.34"
serde = { version = "=1.0.229", features = ["derive"] }
sysinfo = "=0.29.11"
sentry = { version = "=0.31.8", default-features = false }
dotenv = "=0.15.0"
lazy_static = "=1.5.1"
once_cell = "=1.21.4"
anyhow = "=1.0.104"
