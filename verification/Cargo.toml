[package]
name = "disktui"
version = "0.1.0"
edition = "2021"
publish = false

[dependencies]
anyhow = "1"
crossterm = { version = "*", features = ["event-stream"] }
dirs = "*"
futures = "0.3"
libc = "0.2"
ratatui = "*"
serde = { version = "1", features = ["derive"] }
serde_json = "1"
tokio = { version = "1", features = ["full"] }
toml = "*"
tui-input = "*"
