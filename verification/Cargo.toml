[package]
name = "album_art"
version = "0.1.0"
edition = "2021"
publish = false

[dependencies]
log = "0.4"
reqwest = { version = "0.12", features = ["blocking"] }
serde_json = "1"
