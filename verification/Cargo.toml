[package]
name = "kiro_notebook"
version = "0.1.0"
edition = "2021"
publish = false

[dependencies]
serde_json = "1"
serde = { version = "1", features = ["derive"] }
libc = "0.2"
walkdir = "2"
dirs = "*"
chrono = "0.4"
lopdf = "*"
docx-rs = "*"
