[package]
name = "ifecaro"
version = "0.1.0"
edition = "2021"
publish = false

[dependencies]
rand = "=0.8.8"
serde = { version = "=1.0.229", features = ["derive"] }
serde_json = "=1.0.154"
smallvec = { version = "1", features = ["serde"] }
clap = { version = "4", features = ["derive"] }
anyhow = "1"
colored = "2"
dotenv = "0.15"
