[package]
name = "termplay"
version = "0.1.0"
edition = "2021"
publish = false

[dependencies]
anyhow = "1"
base64 = "0.22"
bytemuck = { version = "1", features = ["derive"] }
chrono = "0.4"
crossterm = "*"
directories = "*"
env_logger = "*"
ffmpeg-next = "*"
futures = "0.3"
futures-intrusive = "*"
image = { version = "0.25", default-features = false, features = ["png"] }
kitty_image = "*"
log = "0.4"
once_cell = "1"
parking_lot = "*"
pollster = "*"
ratatui = "*"
rodio = "*"
tempfile = "3"
unicode-width = "*"
wgpu = "*"
youtube_dl = "*"
