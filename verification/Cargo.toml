[package]
name = "descentinel"
version = "0.1.0"
edition = "2021"
publish = false

[dependencies]
serde = { version = "=1.0.229", features = ["derive"] }
serde_json = "=1.0.154"
base64 = "=0.22.1"
image = { version = "=0.25.10", default-features = false, features = ["png", "jpeg"] }
rxing = { version = "=0.9.3", default-features = false, features = ["qrcode", "decoders", "encoders", "encoding_rs"] }
clap = { version = "=4.6.7", features = ["derive"] }
tokio = { version = "=1.54.1", features = ["rt-multi-thread", "macros", "time", "sync"] }
lapin = "=2.5.5"
warp = "=0.3.7"
log = "=0.4.35"
env_logger = "=0.11.11"
thiserror = "=2.0.21"
futures = "=0.3.34"
futures-util = "=0.3.34"
async-global-executor = "=3.1.0"
opencv = "*"
v4l = "*"
