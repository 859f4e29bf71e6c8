[package]
name = "screenpipe_cli"
version = "0.1.0"
edition = "2021"
publish = false

[dependencies]
anyhow = "1"
clap = { version = "4", features = ["derive"] }
colored = "2"
dirs = "5"
futures = "0.3"
port_check = "0.2"
reqwest = { version = "0.12", default-features = false, features = ["json", "rustls-tls"] }
sentry = { version = "*", default-features = false, features = ["tracing", "reqwest", "rustls"] }
serde = { version = "1", features = ["derive"] }
serde_json = "1"
tokio = { version = "1", features = ["full"] }
tracing = "0.1"
tracing-appender = "0.2"
tracing-subscriber = { version = "0.3", features = ["env-filter", "chrono"] }
