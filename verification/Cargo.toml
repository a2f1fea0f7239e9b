[package]
name = "ffmpeg_split"
version = "0.1.0"
edition = "2021"
publish = false

[dependencies]
clap = { version = "4", features = ["derive"] }
path-clean = "*"
serde = { version = "1", features = ["derive"] }
serde_json = "1"
