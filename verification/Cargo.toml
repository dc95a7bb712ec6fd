[package]
name = "ssr"
version = "0.1.0"
edition = "2021"
publish = false

[dependencies]
http = "0.2"
log = "0.4"
serde = "1"
serde_json = "1"
tokio = { version = "0.2", features = ["tcp", "process", "time", "io-util"] }
uuid = { version = "0.8", features = ["v4"] }
