[package]
name = "lumen_frame"
version = "0.1.0"
edition = "2021"
publish = false

[dependencies]
nom-exif = "*"
anyhow = "1"
serde = { version = "1", features = ["derive"] }
toml = "*"
dirs = "*"
ffmpeg-sidecar = "*"
self_update = "*"
num-integer = "0.1"
regex = "1"
chrono = "0.4"
