[package]
name = "pomodoro"
version = "0.1.0"
edition = "2021"
publish = false

[dependencies]
chrono = "0.4"
serde = { version = "1", features = ["derive"] }
eframe = { version = "0.27", default-features = false, features = ["glow", "persistence"] }
egui = { version = "0.27", default-features = false }
