[package]
name = "storage_manager"
version = "0.1.0"
edition = "2021"
publish = false

[dependencies]
anyhow = "=1.0.104"
eframe = { version = "=0.31.1", default-features = false, features = ["default_fonts", "glow", "x11"] }
egui = "=0.31.1"
env_logger = "=0.11.11"
rusqlite = { version = "=0.32.1", features = ["bundled", "backup"] }
serde = { version = "=1.0.229", features = ["derive"] }
toml = "=0.8.23"
