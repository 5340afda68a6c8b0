[package]
name = "status_monitor"
version = "0.1.0"
edition = "2021"
publish = false

[dependencies]
chrono = "0.4"
serde_json = "1"
telegram-bot = "*"
tokio = { version = "0.2", features = ["macros", "rt-threaded", "time"] }
tokio-binance = "*"
