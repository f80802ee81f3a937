[package]
name = "bhop"
version = "0.1.0"
edition = "2021"
publish = false

[dependencies]
anyhow = "1"
colored = "2"
dirs = "*"
dos2unix = "*"
glob = "0.3"
serde = { version = "1", features = ["derive"] }
serde_derive = "1"
sqlite = "*"
toml = "*"
