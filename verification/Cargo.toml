[package]
name = "moxapi"
version = "0.1.0"
edition = "2021"
publish = false

[dependencies]
actix-files = "0.6"
actix-session = { version = "0.10", features = ["cookie-session"] }
actix-web = "4"
anyhow = "1"
askama = "0.12"
awc = "3"
chrono = "0.4"
chrono-humanize = "0.2"
dirs = "5"
futures = "0.3"
futures-util = "0.3"
serde = { version = "1", features = ["derive"] }
serde_json = "1"
serde_yaml = "0.9"
tokio = { version = "1", features = ["macros", "rt-multi-thread", "sync", "time"] }
tokio-tungstenite = "0.24"
url = "2"
zbus = "5"
