[package]
name = "werewolf_game"
version = "0.1.0"
edition = "2021"
publish = false

[dependencies]
rand = "0.9"
uuid = { version = "1", features = ["v4"] }
qrcode = { version = "0.14", default-features = false, features = ["svg"] }
base64 = "0.22"
serde = { version = "1", features = ["derive"] }
serde_json = "1"
tokio = { version = "1", features = ["full"] }
axum = { version = "0.7", features = ["ws"] }
futures = "0.3"
askama = "0.12"
local-ip-address = "0.6"
log = "0.4"
urlencoding = "2"
webbrowser = "1"
