[package]
name = "conrod_chat"
version = "0.1.0"
edition = "2021"
publish = false

[dependencies]
conrod_core = "=0.62.0"
conrod_derive = "=0.62.0"
conrod = "=0.62.1"
daggy = "=0.5.0"
futures = "=0.1.31"
tokio-core = "=0.1.18"
websocket = { version = "=0.20.4", default-features = false, features = ["sync", "async"] }
