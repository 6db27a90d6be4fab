[package]
name = "tui_client"
version = "0.1.0"
edition = "2021"
publish = false

[dependencies]
serde_json = "*"
crossterm = "*"
futures-util = "*"
tokio = { version = "*", features = ["rt-multi-thread", "macros", "sync", "time"] }
tokio-tungstenite = "*"
ureq = "*"
url = "*"
