[package]
name = "har_viewer"
version = "0.1.0"
edition = "2021"
publish = false

[dependencies]
serde_json = "*"
har = "*"
tui = "0.19"
crossterm = "0.25"
