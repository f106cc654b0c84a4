[package]
name = "request_core"
version = "0.1.0"
edition = "2021"
publish = false

[dependencies]
base64 = "0.13"
bytes = "1"
futures-core = "0.3"
futures-util = "0.3"
http = "0.2"
http-body = "0.4"
hyper = { version = "0.14", features = ["client", "http1", "tcp"] }
log = "0.4"
percent-encoding = "2"
serde = "1"
serde_json = "1"
serde_urlencoded = "0.7"
tokio = { version = "1", features = ["rt", "sync", "time"] }
url = "2"
