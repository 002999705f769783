[package]
name = "lux_recorder"
version = "0.1.0"
edition = "2021"
publish = false

[dependencies]
eframe = { version = "0.30", default-features = false, features = ["default_fonts", "glow", "x11"] }
egui_extras = { version = "0.30", default-features = false }
crossbeam-channel = "0.5"
tokio = { version = "1", features = ["rt-multi-thread", "macros"] }
rppal = "*"
linux-embedded-hal = { version = "*", default-features = false, features = ["i2c"] }
bh1750 = "*"
