[package]
name = "polymarket"
version = "0.1.0"
edition = "2021"
publish = false

[dependencies]
anyhow = "1"
binance = "*"
chrono = "0.4"
clap = { version = "4", features = ["derive"] }
cli-log = "*"
crossterm = "0.28"
dotenv = "0.15"
futures-util = "0.3"
ratatui = "0.29"
rust_decimal = "1"
serde = { version = "1", features = ["derive"] }
serde_json = "1"
tokio = { version = "1", features = ["rt-multi-thread", "macros", "time", "sync"] }
tokio-tungstenite = { version = "*", features = ["native-tls"] }
