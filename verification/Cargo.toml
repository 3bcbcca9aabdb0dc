[package]
name = "mediameta"
version = "0.1.0"
edition = "2021"
publish = false

[dependencies]
chrono = { version = "0.4", default-features = false, features = ["std"] }
kamadak-exif = "*"
image = { version = "0.25", default-features = false, features = ["jpeg", "png", "tiff", "webp"] }
matroska = "*"
mp4 = "*"
serde = { version = "1", features = ["derive"] }
serde_json = "1"
thiserror = "*"
which = "*"
cmd_lib = "*"
