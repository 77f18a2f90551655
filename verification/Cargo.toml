[package]
name = "tidal-tui"
version = "0.1.0"
edition = "2021"
publish = false

[dependencies]
color-eyre = { version = "0.6", default-features = false }
crossterm = "0.28"
dotenv = "0.15"
oauth2 = { version = "5", features = ["reqwest-blocking"] }
pyo3 = "0.23"
rand = "0.9"
ratatui = "0.29"
regex = "1"
reqwest = { version = "0.12", default-features = false, features = ["blocking", "json", "rustls-tls"] }
serde = { version = "1", features = ["derive"] }
serde_json = "1"
tokio = { version = "1", features = ["rt-multi-thread", "sync", "macros"] }
toml = "0.8"
url = "2"
