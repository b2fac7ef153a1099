[package]
name = "fenrir-rs"
version = "0.1.0"
edition = "2021"
publish = false

[dependencies]
base64 = "0.22"
log = { version = "0.4", features = ["kv"] }
parking_lot = "0.12"
reqwest = { version = "0.12", default-features = false }
serde_json = "1"
tokio = { version = "1", features = ["rt"] }
ureq = { version = "3", default-features = false }
url = "2"
