[package]
name = "cutlass"
version = "0.1.0"
edition = "2021"
publish = false

[dependencies]
ffmpeg-next = "8"
metal = "0.33"
objc2 = "0.6"
objc2-core-video = "0.3"
objc2-io-surface = "0.3"
objc2-metal = "0.3"
thiserror = "2"
wgpu = { version = "28", features = ["noop"] }
