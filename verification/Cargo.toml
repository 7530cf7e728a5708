[package]
name = "bananaslice"
version = "0.1.0"
edition = "2021"
publish = false

[dependencies]
base64 = "=0.22.1"
image = { version = "=0.25.10", default-features = false, features = ["png", "jpeg", "webp"] }
serde_json = "=1.0.151"
serde = { version = "=1.0.229", features = ["derive"] }
directories = "=6.0.0"
reqwest = { version = "=0.12.28", default-features = false, features = ["json"] }
