[package]
name = "png_to_pal"
version = "0.1.0"
edition = "2021"
publish = false

[dependencies]
png = "0.18"
anyhow = "1"
rfd = "0.15"
eframe = { version = "0.29", default-features = false, features = ["glow", "default_fonts", "x11"] }
