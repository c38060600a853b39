[package]
name = "cyb_ffmpeg_core"
version = "0.1.0"
edition = "2021"
publish = false

[dependencies]
crossbeam-channel = "*"
parking_lot = "*"
log = "*"
env_logger = "*"
thiserror = "*"
ffmpeg-next = "*"
