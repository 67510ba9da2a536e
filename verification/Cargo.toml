[package]
name = "sands_timer"
version = "0.1.0"
edition = "2021"
publish = false

[dependencies]
sys-locale = "0.3"
eframe = { version = "0.31", default-features = false, features = ["glow", "x11", "default_fonts"] }
egui = { version = "0.31", default-features = false }
tokio = { version = "1", features = ["macros", "rt-multi-thread"] }
