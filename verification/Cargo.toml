[package]
name = "glaunch"
version = "0.1.0"
edition = "2021"
publish = false

[dependencies]
regex = "=1.13.1"
chrono = "=0.4.45"
url = "=2.5.8"
sha2 = "=0.10.9"
serde = { version = "=1.0.229", features = ["derive"] }
serde_json = "=1.0.154"
walkdir = "=2.5.0"
uuid = { version = "=1.29.0", features = ["v4"] }
tokio = { version = "=1.54.1", features = ["rt-multi-thread", "time", "sync"] }
parking_lot = "=0.12.5"
winreg = "=0.52.0"
windows = { version = "=0.52.0", features = ["Win32_Foundation", "Win32_System_ProcessStatus", "Win32_System_Threading", "Win32_UI_WindowsAndMessaging"] }
sqlx = { version = "0.8", default-features = false, features = ["sqlite", "runtime-tokio"] }
