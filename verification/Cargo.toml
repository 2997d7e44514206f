[package]
name = "cli_manager"
version = "0.1.0"
edition = "2021"
publish = false

[dependencies]
log = "0.4"
serde = { version = "1", features = ["derive"] }
serde_json = "1"
tauri = { version = "2", default-features = false }
tokio = { version = "1", features = ["rt"] }
uuid = { version = "1", features = ["v4"] }
