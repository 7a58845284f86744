[package]
name = "voicebridge"
version = "0.1.0"
edition = "2021"
publish = false

[dependencies]
hound = "*"
webrtc-vad = "*"
jack = "*"
log = "*"
env_logger = "*"
ctrlc = "*"
device_query = "*"
reqwest = { version = "*", default-features = false, features = ["blocking"] }
serde = { version = "*", features = ["derive"] }
toml = "*"
speexdsp-resampler = "*"
