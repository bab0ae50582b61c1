[package]
name = "champr"
version = "0.1.0"
edition = "2021"
publish = false

[dependencies]
anyhow = "1"
bytes = "1"
eframe = { version = "0.24", default-features = false, features = ["default_fonts", "glow"] }
egui_extras = { version = "0.24", features = ["http", "image"] }
femme = "2"
futures = "0.3"
poll-promise = { version = "0.3", features = ["tokio"] }
reqwest = { version = "0.11", default-features = false, features = ["json", "rustls-tls"] }
serde = { version = "1", features = ["derive"] }
serde_json = "1"
serde_with = "3"
tokio = { version = "1", features = ["macros", "rt-multi-thread"] }
