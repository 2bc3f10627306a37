[package]
name = "rustyllama"
version = "0.1.0"
edition = "2021"
publish = false

[dependencies]
uuid = { version = "1", features = ["v4"] }
chrono = "0.4"
serde = { version = "1", features = ["derive"] }
serde_json = "1"
reqwest = { version = "0.12", default-features = false, features = ["json"] }
rusqlite = { version = "*", features = ["bundled"] }
rusqlite_migration = "*"
toml = "*"
dirs = "*"
tokio = { version = "1", features = ["rt-multi-thread"] }
futures = "0.3"
async-trait = "0.1"
eframe = { version = "*", default-features = false, features = ["default_fonts", "glow", "x11"] }
egui = "*"
