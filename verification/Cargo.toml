[package]
name = "k256_sdk"
version = "0.1.0"
edition = "2021"
publish = false

[dependencies]
bs58 = "*"
serde = { version = "*", features = ["derive"] }
serde_json = "*"
thiserror = "*"
urlencoding = "*"
tracing = "*"
futures-util = "*"
tokio = { version = "*", features = ["rt", "sync", "macros", "time"] }
tungstenite = "*"
tokio-tungstenite = "*"
