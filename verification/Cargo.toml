[package]
name = "logboot"
version = "0.1.0"
edition = "2021"
publish = false

[dependencies]
app_dirs2 = "*"
anyhow = "*"
color-eyre = "*"
clap = { version = "*", features = ["derive"] }
tracing = "*"
tracing-appender = "*"
tracing-subscriber = { version = "*", features = ["env-filter"] }
