[package]
name = "bittrade_websockets"
version = "0.1.0"
edition = "2021"
publish = false

[dependencies]
serde = { version = "1", features = ["derive"] }
serde_json = "1"
bincode = "1"
tokio = { version = "1", features = ["full"] }
tokio-tungstenite = { version = "*", features = ["rustls-tls-webpki-roots"] }
tokio-util = "*"
futures = "*"
log = "*"
thiserror = "*"
tracing = "*"
tracing-subscriber = "*"
cliclack = "*"
