[package]
name = "glide"
version = "0.1.0"
edition = "2021"
publish = false

[dependencies]
crossbeam-channel = "*"
egui-phosphor = "*"
serde = { version = "*", features = ["derive"] }
serde_json = "*"
toml = "*"
thiserror = "*"
tracing = "*"
tracing-subscriber = "*"
dirs = "*"
hound = "*"
sysinfo = "0.30"
bytemuck = "*"
parking_lot = "*"
lazy_static = "*"
image = { version = "0.24", default-features = false, features = ["png"] }
ffmpeg-next = "7"
