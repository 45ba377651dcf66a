[package]
name = "r3data"
version = "0.1.0"
edition = "2021"
publish = false

[dependencies]
base64 = "=0.22.1"
image = { version = "=0.25.10", default-features = false, features = ["png", "jpeg", "webp", "bmp"] }
serde = { version = "=1.0.229", features = ["derive"] }
serde_json = "=1.0.154"
kuva = "=0.6.0"
dioxus = "=0.7.10"
rfd = { version = "=0.17.2", default-features = false, features = ["xdg-portal"] }
