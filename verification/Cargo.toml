[package]
name = "inspector_core"
version = "0.1.0"
edition = "2021"
publish = false

[dependencies]
bevy_egui = { version = "=0.42.0", default-features = false }

[dev-dependencies]
egui = { version = "=0.36.2", features = ["default_fonts"] }
