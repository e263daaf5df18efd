[package]
name = "apod_cache"
version = "0.1.0"
edition = "2021"
publish = false

[dependencies]
rusqlite = { version = "*", features = ["bundled"] }
serde_json = "*"
ureq = "2"
serde = { version = "*", features = ["derive"] }
toml = "*"
chrono = "*"
wallpaper = "*"
