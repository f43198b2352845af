[package]
name = "clowncher"
version = "0.1.0"
edition = "2021"
publish = false

[dependencies]
serde_json = "*"
crossbeam = "*"
kassadin = "*"
websocket = { version = "*", default-features = false, features = ["sync"] }
tokio = { version = "*", features = ["rt-multi-thread"] }
