[package]
name = "fetch_request"
version = "0.1.0"
edition = "2021"
publish = false

[dependencies]
http = "1"
url = "2"
serde = { version = "1", features = ["derive"] }
serde_json = "1"
