[package]
name = "freddie"
version = "0.1.0"
edition = "2021"
publish = false

[dependencies]
tokio = { version = "=1.54.1", default-features = false, features = ["sync", "rt", "net", "macros"] }
tokio-tungstenite = "=0.30.0"
futures-util = { version = "=0.3.34", default-features = false, features = ["std"] }
http = "=1.5.0"
image = { version = "0.25", default-features = false, features = ["png"] }
