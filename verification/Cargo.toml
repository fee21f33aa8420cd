[package]
name = "aitch"
version = "0.1.0"
edition = "2021"
publish = false

[dependencies]
bytes = "0.4"
futures = "0.1"
http = "0.1"
hyper = "0.12"
mime_guess = "2"
serde = "1"
serde_json = "1"
tiny_http = "0.6"
tokio-threadpool = "0.1"
