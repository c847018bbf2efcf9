[package]
name = "devstore_sdk"
version = "0.1.0"
edition = "2021"
publish = false

[dependencies]
serde_json = "=1.0.151"
zip = "=8.6.0"
reqwest = { version = "=0.13.5", default-features = false, features = ["blocking", "multipart", "query", "form"] }
dirs = "=7.0.0"
walkdir = "=2.5.0"
libloading = "=0.9.0"
sdl2 = "=0.38.0"
