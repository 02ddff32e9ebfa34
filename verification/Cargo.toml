[package]
name = "claw_core"
version = "0.1.0"
edition = "2021"
publish = false

[dependencies]
url = "2"
uuid = { version = "1", features = ["v4"] }
serde_json = "1"
time = "0.3"
log = "0.4"
