[package]
name = "bifrost"
version = "0.1.0"
edition = "2021"
publish = false

[dependencies]
serde = { version = "1", features = ["derive"] }
serde_json = "1"
uuid = { version = "1", features = ["v5"] }
chrono = "0.4"
tokio = { version = "1", features = ["net", "rt", "macros"] }
tokio-tungstenite = "*"
futures = "0.3"
log = "0.4"
