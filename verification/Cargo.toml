[package]
name = "raspberry-switch-controller"
version = "0.1.0"
edition = "2021"
publish = false

[dependencies]
axum = "0.8"
clap = { version = "4", features = ["derive"] }
crossterm = "*"
ctrlc = "3"
flume = "*"
gilrs = "0.11"
governor = "0.10"
libc = "0.2"
log = "0.4"
maud = { version = "0.27", features = ["axum"] }
pretty_env_logger = "0.5"
ratatui = "*"
tokio = { version = "1", features = ["rt-multi-thread", "sync", "time", "net"] }
tokio-stream = { version = "0.1", features = ["sync"] }
wiimote-rs = "0.2"
