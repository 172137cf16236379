[package]
name = "aim2go"
version = "0.1.0"
edition = "2021"
publish = false

[dependencies]
clap = { version = "=4.6.7", features = ["derive"] }
cliclack = "=0.5.6"
console = "=0.16.6"
crossterm = { version = "=0.29.0", features = ["event-stream"] }
futures = "=0.3.34"
ratatui = "=0.30.2"
serde = { version = "=1.0.229", features = ["derive"] }
serde_yaml = "=0.9.34"
tokio = { version = "=1.53.2", features = ["full"] }
winapi = { version = "=0.3.9", features = ["winuser", "wingdi", "libloaderapi"] }
