[package]
name = "flash-desktop"
version = "0.1.0"
edition = "2021"
publish = false

[dependencies]
hostname = "0.4"
dirs = "5"
shellexpand = "3"
glob = "0.3"
open = "5"
arboard = { version = "3", default-features = false }
serde = { version = "1", features = ["derive"] }
serde_json = "1"
tokio = { version = "1", features = ["rt-multi-thread", "macros", "sync", "time"] }
tokio-tungstenite = { version = "0.21", features = ["rustls-tls-webpki-roots"] }
futures-util = "0.3"
