[package]
name = "play_ui"
version = "0.1.0"
edition = "2021"
publish = false

[dependencies]
eframe = { version = "0.19", default-features = false, features = ["glow", "default_fonts"] }
