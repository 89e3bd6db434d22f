[package]
name = "realtime_rc"
version = "0.1.0"
edition = "2021"
publish = false

[dependencies]
openh264 = "=0.9.8"
uuid = { version = "=1.27.0", features = ["v4"] }
nokhwa = "=0.10.11"
tokio = { version = "=1.53.2", features = ["rt-multi-thread", "time", "sync", "macros", "signal"] }
serde = { version = "=1.0.229", features = ["derive"] }
serde_json = "=1.0.151"
