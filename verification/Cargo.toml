[package]
name = "uefibootmgrrs"
version = "0.1.0"
edition = "2021"
publish = false

[dependencies]
efivar = { version = "=2.0.0", features = ["store"] }
uuid = "=1.29.0"
base64 = "=0.22.1"
chrono = "=0.4.45"
serde = { version = "=1.0.229", features = ["derive"] }
serde_json = "=1.0.154"
clap = { version = "=4.6.7", features = ["derive"] }
comfy-table = "=7.2.2"
dialoguer = "=0.11.0"
crossterm = "=0.28.1"
ratatui = "=0.29.0"
anyhow = "=1.0.104"
thiserror = "=2.0.21"
tracing = "=0.1.44"
tracing-subscriber = { version = "=0.3.23", features = ["env-filter"] }
