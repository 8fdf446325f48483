[package]
name = "jukebox"
version = "0.1.0"
edition = "2021"
publish = false

[dependencies]
uuid = { version = "1", features = ["v4", "serde"] }
lofty = "0.21"
walkdir = "2"
toml = "0.8"
serde = { version = "1", features = ["derive"] }
rodio = "0.19"
parking_lot = "0.12"
anyhow = "1"
thiserror = "1"
