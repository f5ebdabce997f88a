[package]
name = "htpc_app_manager"
version = "0.1.0"
edition = "2021"
publish = false

[dependencies]
chrono = { version = "0.4", default-features = false, features = ["clock"] }
eframe = { version = "0.22", default-features = false, features = ["default_fonts", "glow"] }
image = { version = "0.24", default-features = false, features = ["jpeg", "png"] }
serde = { version = "1", features = ["derive"] }
serde_json = "1"
shellexpand = "3"
