[package]
name = "calculator"
version = "0.1.0"
edition = "2021"
publish = false

[dependencies]
eframe = { version = "0.24", default-features = false, features = ["glow", "x11", "default_fonts"] }
egui = { version = "0.24", default-features = false }
