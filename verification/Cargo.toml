[package]
name = "ectt"
version = "0.1.0"
edition = "2021"
publish = false

[dependencies]
mail-parser = "=0.11.9"
lettre = { version = "=0.11.23", default-features = false, features = ["builder", "smtp-transport", "hostname", "rustls-tls"] }
oauth2 = { version = "=5.0.0", features = ["reqwest-blocking"] }
imap = "=2.4.1"
native-tls = "*"
axum = "*"
tokio = { version = "*", features = ["full"] }
tokio-util = "*"
serde = { version = "*", features = ["derive"] }
serde_json = "*"
clap = { version = "*", features = ["derive"] }
dirs = "*"
crossterm = "=0.28.1"
ratatui = "=0.28.1"
tui-textarea = "=0.6.1"
chrono = "*"
