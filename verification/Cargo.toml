[package]
name = "livekit_bridge"
version = "0.1.0"
edition = "2021"
publish = false

[dependencies]
tokio = { version = "*", features = ["rt-multi-thread", "sync", "time"] }
lazy_static = "*"
log = "*"
jni = "*"
android_logger = "*"
