[package]
name = "skyshard"
version = "0.1.0"
edition = "2021"
publish = false

[dependencies]
itertools = "0.10"
base64 = "0.13"
ash = { version = "0.37", default-features = false, features = ["loaded", "debug"] }
gpu-allocator = { version = "0.22", default-features = false, features = ["vulkan"] }
thiserror = "1"
nalgebra = "0.32"
winit = "0.27"
log = "0.4"
log4rs = "1"
rand = "0.8"
sha2 = "0.10"
png = "0.17"
chrono = "0.4"
gltf = "1"
ordered-float = "3"
bimap = "0.6"
cgmath = "0.18"
raw-window-handle = "0.5"
ash-window = "0.12"
memoffset = "0.8"
