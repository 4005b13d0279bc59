[package]
name = "sonaric_desktop"
version = "0.1.0"
edition = "2021"
publish = false

[dependencies]
anyhow = "1"
duct = "0.13"
env_logger = "0.11"
log = "0.4"
regex = "=1.13.1"
reqwest = { version = "0.12", features = ["blocking", "json"] }
rev_buf_reader = "0.3"
semver = "=1.0.28"
sentry = { version = "0.35", default-features = false, features = ["backtrace", "contexts", "panic", "reqwest", "native-tls"] }
sentry-tracing = "0.35"
serde = { version = "1", features = ["derive"] }
serde_json = "1"
thiserror = "1"
tokio = { version = "1", features = ["full"] }
tracing = "0.1"
tracing-appender = "0.2"
tracing-subscriber = { version = "0.3", features = ["env-filter"] }
