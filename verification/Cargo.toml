[package]
name = "mdrs"
version = "0.1.0"
edition = "2021"
publish = false

[dependencies]
base64 = "=0.13.1"
bytes = "=1.12.1"
dcv-color-primitives = "=1.0.0"
log = "=0.4.34"
serde_json = "=1.0.151"
tokio = { version = "=1.53.2", features = ["rt-multi-thread", "macros", "sync", "time"] }
vpx-encode = "=0.6.2"
webrtc = "=0.17.2"
