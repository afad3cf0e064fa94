[package]
name = "thumbnailer"
version = "0.1.0"
edition = "2021"

[dependencies]
image = { version = "=0.25.10", default-features = false, features = ["png", "jpeg", "gif", "bmp", "ico", "tiff", "webp", "rayon"] }
mime = "=0.3.17"
rayon = "=1.12.0"
