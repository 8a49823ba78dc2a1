[package]
name = "reson"
version = "0.1.0"
edition = "2021"
publish = false

[dependencies]
ratatui = "0.24"
crossterm = "0.27"
sysinfo = "0.29"
tokio = { version = "1", features = ["full"] }
color-eyre = "0.6"
