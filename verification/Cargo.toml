[package]
name = "car_host"
version = "0.1.0"
edition = "2021"
publish = false

[dependencies]
async-stream = "0.3"
base64 = "0.13"
clap = { version = "4.1", features = ["derive"] }
log = "0.4"
nalgebra = "0.32"
prost = "0.11"
serde = { version = "1", features = ["derive"] }
serde_json = "1"
serde_yaml = "0.9"
simple_logger = "4"
tokio = { version = "1", features = ["full"] }
tokio-stream = "0.1"
tonic = "0.8"
webrtc = "0.7"
