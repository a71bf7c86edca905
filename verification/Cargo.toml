[package]
name = "atlas"
version = "0.1.0"
edition = "2021"
publish = false

[dependencies]
eframe = { version = "*", default-features = false, features = ["glow", "persistence", "x11", "default_fonts"] }
egui = "*"
serde = { version = "*", features = ["derive"] }
