[package]
name = "ybm"
version = "0.1.0"
edition = "2021"
publish = false

[dependencies]
anyhow = "=1.0.104"
base32 = "=0.4.0"
chrono = "=0.4.45"
clap = { version = "=4.6.7", features = ["derive"] }
crossterm = { version = "=0.27.0", features = ["serde"] }
dirs = "=7.0.0"
image = "=0.25.10"
nokhwa = { version = "=0.10.11", features = ["input-native"] }
ratatui = "=0.26.3"
rqrr = "=0.11.0"
serde = { version = "=1.0.229", features = ["derive"] }
toml_edit = { version = "=0.22.27", features = ["serde"] }
totp-lite = "=2.0.1"
tracing = "=0.1.44"
tracing-appender = "=0.2.5"
tracing-subscriber = "=0.3.23"
