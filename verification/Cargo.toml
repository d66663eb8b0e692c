[package]
name = "pbui"
version = "0.1.0"
edition = "2021"
publish = false

[dependencies]
include_dir = "0.7"
reqwest = { version = "*", default-features = false, features = ["json", "native-tls"] }
serde = { version = "1", features = ["derive"] }
serde_json = "1"
tauri = { version = "*", default-features = false }
