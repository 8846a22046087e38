[package]
name = "musicbot"
version = "0.1.0"
edition = "2021"
publish = false

[dependencies]
rand = "0.9"
uuid = { version = "1", features = ["v4"] }
poise = "0.6"
serenity = { version = "0.12", default-features = false, features = ["builder", "cache", "client", "gateway", "http", "model", "utils", "rustls_backend", "voice"] }
songbird = { version = "0.5", features = ["receive"] }
tokio = { version = "1", features = ["macros", "rt-multi-thread", "signal", "process"] }
reqwest = "0.12"
dashmap = "6"
serde = { version = "1", features = ["derive"] }
serde_json = "1"
thiserror = "2"
tracing = "0.1"
tracing-appender = "0.2"
tracing-bunyan-formatter = "0.3"
tracing-subscriber = "0.3"
dotenv = "0.15"
