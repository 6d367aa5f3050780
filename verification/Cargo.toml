[package]
name = "whep_client"
version = "0.1.0"
edition = "2021"
publish = false

[dependencies]
anyhow = "=1.0.104"
env_logger = "=0.11.11"
gstreamer = "=0.22.8"
gstreamer-app = "=0.22.6"
log = "=0.4.34"
reqwest = "=0.12.28"
serde_json = "=1.0.154"
tokio = { version = "=1.54.1", features = ["full"] }
webrtc = "=0.11.0"
