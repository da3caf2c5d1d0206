[package]
name = "gyro_mouse"
version = "0.1.0"
edition = "2021"
publish = false

[dependencies]
serde_json = "1"
mouse-rs = "*"
tokio = { version = "1", features = ["net", "rt-multi-thread", "macros", "time"] }
log = "0.4"
env_logger = "*"
local-ip-address = "*"
qr2term = "*"
futures = "0.3"
