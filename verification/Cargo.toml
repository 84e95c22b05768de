[package]
name = "wallcycle"
version = "0.1.0"
edition = "2021"
publish = false

[dependencies]
rand = "0.8"
serde = { version = "1", features = ["derive"] }
serde_yaml = "0.9"
walkdir = "2"
image = "0.24"
reqwest = { version = "0.11", default-features = false, features = ["blocking", "rustls-tls"] }
tempfile = "3"
wallpaper = "3"
log = "0.4"
env_logger = "0.10"
