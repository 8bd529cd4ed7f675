[package]
name = "mdcmd"
version = "0.1.0"
edition = "2021"
publish = false

[dependencies]
anyhow = "1"
crossterm = "0.28"
dirs = "5"
image = { version = "0.25", default-features = false, features = ["png", "jpeg", "gif", "webp", "bmp", "ico"] }
portable-pty = "0.8"
ratatui = "0.29"
ratatui-image = { version = "5", default-features = false, features = ["crossterm"] }
serde = { version = "1", features = ["derive"] }
serde_json = "1"
tui-term = "0.2"
vt100 = "0.15"
