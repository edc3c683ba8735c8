[package]
name = "keystone_tui"
version = "0.1.0"
edition = "2021"
publish = false

[dependencies]
anyhow = "1"
crossterm = "0.28"
directories = "5"
git2 = { version = "0.19", default-features = false }
home = "0.5"
ratatui = "0.29"
rnix = "0.11"
rowan = "0.15"
serde = { version = "1", features = ["derive"] }
tokio = { version = "1", features = ["full"] }
tokio-util = "0.7"
toml = "0.8"
