[package]
name = "pequod_reader"
version = "0.1.0"
edition = "2021"
publish = false

[dependencies]
anyhow = "=1.0.104"
chrono = "=0.4.45"
crossterm = "=0.29.0"
directories = "=6.0.0"
feed-rs = "=2.3.1"
html2text = "=0.17.4"
open = "=5.4.5"
ratatui = "=0.30.2"
reqwest = "=0.13.5"
rusqlite = "=0.40.2"
serde_json = "=1.0.154"
textwrap = "=0.16.4"
tokio = { version = "=1.54.1", features = ["macros", "rt-multi-thread", "sync", "time"] }
unicode-width = "=0.2.2"
