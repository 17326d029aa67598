[package]
name = "hashira-cli"
version = "0.1.0"
edition = "2021"
publish = false

[dependencies]
anyhow = "=1.0.104"
thiserror = "=1.0.69"
clap = { version = "=4.6.7", features = ["derive"] }
tokio = { version = "=1.54.1", features = ["full"] }
serde = { version = "=1.0.229", features = ["derive"] }
serde_json = "=1.0.154"
dialoguer = "=0.10.4"
directories = "=5.0.1"
which = "=4.4.2"
flate2 = "=1.1.10"
tar = "=0.4.46"
zip = { version = "=0.6.6", default-features = false, features = ["deflate"] }
reqwest = { version = "=0.11.27", default-features = false, features = ["rustls-tls", "stream", "json"] }
futures = "=0.3.34"
tracing = "=0.1.44"
tracing-subscriber = { version = "=0.3.23", features = ["env-filter"] }
cargo_toml = "=0.15.3"
enum-iterator = "=1.5.0"
dunce = "=1.0.5"
glob = "=0.3.4"
notify = "=5.2.0"
notify-debouncer-mini = "=0.2.1"
axum = { version = "=0.6.20", features = ["ws"] }
tokio-stream = { version = "=0.1.19", features = ["sync"] }
once_cell = "=1.21.4"
log = "=0.4.35"
lightningcss = { version = "=1.0.0-alpha.72", default-features = false, features = ["bundler"] }
