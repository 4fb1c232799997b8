[package]
name = "promocode"
version = "0.1.0"
edition = "2021"
publish = false
rust-version = "1.95"

[dependencies]
chrono = "=0.4.45"
clap = { version = "=4.6.7", features = ["derive", "env"] }
env_logger = "=0.11.11"
log = "=0.4.34"
ntex = { version = "=3.12.3", features = ["tokio"] }
# ntex asks for ntex-httparse 2.1 or later. From 2.3.0 on it needs a newer
# compiler than `rust-version` names, so it is held below that.
ntex-httparse = ">=2.1.0, <2.3.0"
openweather_sdk = "=0.1.8"
serde = { version = "=1.0.229", features = ["derive"] }
serde_json = "=1.0.154"
