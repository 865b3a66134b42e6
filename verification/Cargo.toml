[package]
name = "auto_input"
version = "0.1.0"
edition = "2021"
publish = false

[dependencies]
serde = { version = "1", features = ["derive"] }
toml = "0.8"
arboard = "3"
enigo = "0.2"
winapi = { version = "0.3", features = ["winuser", "minwindef"] }
tray-icon = "0.19"
iced = { version = "0.13", default-features = false, features = ["advanced", "tokio", "tiny-skia"] }
