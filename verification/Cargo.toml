[package]
name = "rpcs3_presence"
version = "0.1.0"
edition = "2021"
publish = false

[dependencies]
sysinfo = "*"
discord-rich-presence = "*"
chrono = "*"
anyhow = "*"
parking_lot = "*"
crossterm = "*"
ratatui = "*"
tokio = { version = "*", features = ["macros", "rt-multi-thread", "time"] }
