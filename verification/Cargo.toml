[package]
name = "zenmail"
version = "0.1.0"
edition = "2021"
publish = false

[dependencies]
anyhow = "1"
crossterm = "*"
dirs = "*"
imap = "2"
lettre = "*"
mailparse = "*"
native-tls = "*"
ratatui = "*"
serde = { version = "1", features = ["derive"] }
tokio = { version = "1", features = ["rt-multi-thread", "macros", "sync"] }
toml = "*"
