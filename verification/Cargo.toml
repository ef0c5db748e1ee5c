[package]
name = "egui_screensaver_matrix"
version = "0.1.3"
edition = "2021"
publish = false

[dependencies]
egui = "=0.37.0"
egui_glow = { version = "=0.37.0", default-features = false }
glow = "=0.17.0"
image = { version = "=0.25.10", default-features = false, features = ["png"] }
log = "=0.4.35"
