[package]
name = "desktop_backend"
version = "0.1.0"
edition = "2021"
publish = false

[dependencies]
csv = "1"
serde = { version = "1", features = ["derive"] }
image = { version = "*", default-features = false, features = ["png"] }
pdfium = "*"
