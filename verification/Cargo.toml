[package]
name = "chromadb"
version = "0.1.0"
edition = "2021"
publish = false

[dependencies]
anyhow = "*"
base64 = "*"
minreq = "*"
serde = { version = "*", features = ["derive"] }
serde_json = "*"
