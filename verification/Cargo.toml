[package]
name = "parking_garage"
version = "0.1.0"
edition = "2021"
publish = false

[dependencies]
axum = "*"
chrono = "*"
ctrlc = "*"
global_counter = "*"
rppal = "*"
rusqlite = { version = "*", features = ["bundled"] }
rust_socketio = "*"
serde = { version = "*", features = ["derive"] }
serde_json = "*"
socketioxide = "*"
termion = "*"
tokio = { version = "*", features = ["macros", "rt-multi-thread", "net", "signal"] }
