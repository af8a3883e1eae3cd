[package]
name = "viewer_core"
version = "0.1.0"
edition = "2021"
publish = false

[dependencies]
eframe = { version = "0.25", default-features = false, features = ["glow", "default_fonts", "x11"] }
egui = "0.25"
ico = "0.3"
image = { version = "0.24", default-features = false, features = ["png", "jpeg", "gif", "bmp", "webp"] }
log = "0.4"
resvg = "0.40"
serde = { version = "1", features = ["derive"] }
tiny-skia = "0.11"
toml = "0.8"
usvg = "0.40"
