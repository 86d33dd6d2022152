[package]
name = "drydock_desktop"
version = "0.1.0"
edition = "2021"
publish = false

[dependencies]
eframe = { version = "0.34", default-features = false, features = ["default_fonts", "glow", "x11"] }
egui_extras = { version = "0.34", default-features = false, features = ["image"] }
rfd = "0.15"
open = "5"
