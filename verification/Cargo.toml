[package]
name = "tui-async-template"
version = "0.1.0"
edition = "2021"
publish = false

[dependencies]
ratatui = "0.30"
tui-logger = "0.18"
color-eyre = "=0.6.5"
tokio = { version = "=1.54.1", features = ["rt-multi-thread", "macros", "sync", "time"] }
reqwest = { version = "=0.12.28", default-features = false, features = ["json", "rustls-tls"] }
serde = { version = "=1.0.229", features = ["derive"] }
