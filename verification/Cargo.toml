[package]
name = "git_helper"
version = "0.1.0"
edition = "2021"
publish = false

[dependencies]
aes-gcm = "0.10"
anyhow = "1"
async-trait = "0.1"
axum = "0.8"
base64 = "0.22"
bcrypt = "0.15"
chrono = "0.4"
clap = { version = "4", features = ["derive"] }
cron = "*"
git2 = { version = "0.19", default-features = false }
hex = "0.4"
jsonwebtoken = "9"
reqwest = { version = "0.12", default-features = false, features = ["json", "rustls-tls"] }
rusqlite = { version = "0.32", features = ["bundled"] }
serde = { version = "1", features = ["derive"] }
serde_json = "1"
tokio = { version = "1", features = ["full"] }
toml = "0.8"
tracing = "0.1"
tracing-appender = "0.2"
tracing-subscriber = { version = "0.3", features = ["env-filter"] }
