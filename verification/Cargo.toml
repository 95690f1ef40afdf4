[package]
name = "trippy_tui"
version = "0.1.0"
edition = "2021"
publish = false

[dependencies]
anyhow = "=1.0.104"
chrono = "=0.4.45"
clap = { version = "=4.6.7", features = ["derive", "cargo"] }
clap_complete = "4"
clap_mangen = "*"
humantime = "=2.4.0"
itertools = "=0.15.0"
parking_lot = "=0.12.5"
ratatui = "=0.30.2"
tracing-chrome = "=0.7.2"
tracing-subscriber = { version = "=0.3.23", features = ["env-filter", "json"] }
