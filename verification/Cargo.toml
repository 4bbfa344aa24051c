[package]
name = "pdf_viewer"
version = "0.1.0"
edition = "2021"
publish = false

[dependencies]
num = { version = "0.4", default-features = false }
anyhow = "1"
serde = { version = "1", features = ["derive"] }
strum = { version = "0.26", features = ["derive"] }
colorgrad = "0.7"
