[package]
name = "invisibly"
version = "0.1.0"
edition = "2021"
publish = false

[dependencies]
chrono = "0.4"
hex = "0.4"
ring = "0.17"
rand = "0.8"
serde = { version = "1", features = ["derive"] }
serde_json = "1"
once_cell = "1"
notify = "6"
reqwest = { version = "0.12", default-features = false, features = ["blocking", "json"] }
windows = { version = "0.58", features = ["Win32_Foundation", "Win32_Security", "Win32_Security_Cryptography", "Win32_System_Memory", "Win32_System_Threading", "Services_Store", "Foundation_Collections"] }
winit = "0.30"
tray-icon = "0.19"
