[package]
name = "mad_eye"
version = "0.1.0"
edition = "2021"
publish = false

[dependencies]
serde = { version = "1", features = ["derive"] }
serde_json = "1"
ureq = "3"
tiny-skia = "0.11"
security-framework = "*"
tauri = { version = "2", default-features = false }
