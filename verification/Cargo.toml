[package]
name = "rust_transcriber"
version = "0.1.0"
edition = "2021"
publish = false

[dependencies]
hound = "*"
serde_json = "*"
cpal = "*"
crossbeam-channel = "*"
global-hotkey = "*"
reqwest = { version = "*", default-features = false }
serde = { version = "*", features = ["derive"] }
serde_yaml = "*"
tokio = { version = "*", features = ["rt-multi-thread", "macros", "sync", "time"] }
winapi = { version = "*", features = ["winuser"] }
