[package]
name = "wreq_core"
version = "0.1.0"
edition = "2021"
publish = false

[dependencies]
schnellru = "0.2"
percent-encoding = "2"
url = "2"
base64 = "0.22"
http = "1"
bytes = "1"
serde = "1"
serde_json = "1"
serde_urlencoded = "0.7"
tower = { version = "0.5", features = ["util", "retry", "timeout"] }
tower-service = "0.3"
tokio = { version = "1", features = ["sync", "time", "rt"] }
pin-project-lite = "0.2"
