[package]
name = "weather_cache"
version = "0.1.0"
edition = "2021"
publish = false

[dependencies]
anyhow = "1"
byteorder = "1"
chrono = { version = "0.4", default-features = false, features = ["clock"] }
rocket = "0.5"
serde_json = "1"
ureq = { version = "2", default-features = false, features = ["json"] }
