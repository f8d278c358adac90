[package]
name = "docx_parser"
version = "0.1.0"
edition = "2021"
publish = false

[dependencies]
base64 = "*"
docx-rust = "*"
clap = { version = "*", features = ["derive"] }
serde = { version = "*", features = ["derive"] }
serde_json = "*"
