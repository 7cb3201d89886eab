[package]
name = "microsoft_365"
version = "0.1.0"
edition = "2021"
publish = false

[dependencies]
base64 = "0.22"
docx-rs = "0.4"
schemars = "0.8"
serde = { version = "1", features = ["derive"] }
serde_json = "1"
zip = { version = "0.6", default-features = false, features = ["deflate"] }
