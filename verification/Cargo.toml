[package]
name = "era-launcher"
version = "0.1.12"
edition = "2021"
publish = false

[dependencies]
anyhow = "=1.0.104"
arboard = { version = "=3.7.0", default-features = false }
chrono = "=0.4.45"
crossterm = "=0.28.1"
dirs = "=5.0.1"
flate2 = "=1.1.10"
futures = "=0.3.34"
hex = "=0.4.3"
md5 = "0.7"
once_cell = "=1.21.4"
ratatui = "=0.29.0"
reqwest = { version = "=0.12.28", default-features = false, features = ["json", "rustls-tls"] }
serde = { version = "=1.0.229", features = ["derive"] }
serde_json = "=1.0.154"
sha1 = "=0.10.7"
sha2 = "=0.10.9"
tar = "=0.4.46"
tokio = { version = "=1.54.1", features = ["rt-multi-thread", "macros"] }
uuid = { version = "=1.29.0", features = ["v4"] }
walkdir = "=2.5.0"
zip = { version = "=0.6.6", default-features = false, features = ["deflate"] }
