[package]
name = "jeryu_tui"
version = "0.1.0"
edition = "2021"
publish = false

[dependencies]
vt100 = "=0.16.2"
ratatui = "0.30"
crossterm = "0.29"
serde = { version = "=1.0.229", features = ["derive"] }
serde_json = "=1.0.154"
chrono = "=0.4.45"
