[package]
name = "dosomekamas"
version = "0.1.0"
edition = "2021"
publish = false

[dependencies]
base64 = "=0.22.1"
image = "=0.25.10"
regex = "=1.13.1"
rusty-tesseract = "=1.1.10"
serde = { version = "=1.0.229", features = ["derive"] }
serde_json = "=1.0.154"
thiserror = "=1.0.69"
xcap = "=0.1.1"
