[package]
name = "afk_companion_bot"
version = "0.1.1"
edition = "2021"
publish = false

[dependencies]
anyhow = "1"
azalea = "*"
futures-util = "0.3"
parking_lot = "0.12"
rand = "0.8"
serde = { version = "1", features = ["derive"] }
serde_json = "1"
tokio = { version = "1", features = ["sync", "rt", "macros", "net", "time"] }
tokio-tungstenite = "*"
tracing = "0.1"
windows-sys = { version = "*", features = ["Win32_System_Console", "Win32_Foundation"] }
