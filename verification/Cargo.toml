[package]
name = "yastr"
version = "0.1.0"
edition = "2021"
publish = false

[dependencies]
axum = { version = "=0.7.9", features = ["ws"] }
axum-range = "=0.4.0"
base64 = "=0.22.1"
clap = { version = "=4.6.7", features = ["derive"] }
futures = "=0.3.34"
indoc = "=2.0.8"
mime_guess = "=2.0.5"
nostr = "=0.40.0"
serde = { version = "=1.0.229", features = ["derive"] }
serde_json = "=1.0.154"
sqlx = { version = "=0.8.6", default-features = false, features = ["runtime-tokio", "sqlite"] }
thiserror = "=1.0.69"
tokio = { version = "=1.54.1", features = ["full"] }
tracing = "=0.1.44"
tracing-subscriber = { version = "=0.3.23", features = ["env-filter"] }
