[package]
name = "cerebro"
version = "0.1.0"
edition = "2021"
publish = false

[dependencies]
crossterm = { version = "0.28", features = ["event-stream"] }
dotenvy = "0.15"
finnhub = "*"
futures = "0.3"
ratatui = "0.29"
reqwest = { version = "0.12", default-features = false, features = ["json", "rustls-tls"] }
serde = { version = "1", features = ["derive"] }
serde_json = "1"
thiserror = "2"
time = "0.3"
tokio = { version = "1", features = ["full"] }
yahoo_finance_api = "*"
