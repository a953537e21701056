[package]
name = "vibe_studio"
version = "0.1.0"
edition = "2021"
publish = false

[dependencies]
serde_json = { version = "1", features = ["preserve_order"] }
regex = "1"
serde = { version = "1", features = ["derive"] }
reqwest = { version = "0.12", default-features = false, features = ["json", "stream"] }
futures-util = "0.3"
tokio = { version = "1", features = ["process", "io-util", "rt", "macros"] }
git2 = { version = "*", default-features = false }
keyring = "2"
dirs = "*"
walkdir = "2"
