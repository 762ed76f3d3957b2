[package]
name = "basilisk"
version = "0.1.0"
edition = "2021"
publish = false

[dependencies]
anyhow = "=1.0.104"
chrono = "=0.4.45"
clap = { version = "=4.5.61", features = ["derive"] }
crossterm = "=0.28.1"
eventsource-client = "=0.13.0"
futures = "=0.3.34"
ratatui = "=0.28.1"
reqwest = { version = "=0.12.28", default-features = false, features = ["json"] }
serde = { version = "=1.0.229", features = ["derive"] }
serde_json = "=1.0.151"
tokio = { version = "=1.45.1", features = ["full"] }
