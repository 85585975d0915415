[package]
name = "video_viewer"
version = "0.1.0"
edition = "2021"
publish = false

[dependencies]
anyhow = "1.0"
gstreamer = "0.23"
gstreamer-app = "0.23"
image = { version = "0.25", default-features = false }
parking_lot = "0.12"
smallvec = { version = "1", features = ["union"] }
