[package]
name = "video_rotator"
version = "0.1.0"
edition = "2021"
publish = false

[dependencies]
anyhow = "=1.0.104"
ffmpeg-next = "=9.0.0"
gettext = "=0.4.0"
rfd = { version = "=0.16.1", default-features = false, features = ["xdg-portal", "tokio"] }
slint = { version = "*", default-features = false, features = ["std", "compat-1-2", "backend-qt"] }
sys-locale = "=0.3.2"
