[package]
name = "chatui"
version = "0.1.0"
edition = "2021"
publish = false

[dependencies]
names = "0.14"
crossterm = "0.25"
tui = "0.19"
crossbeam-channel = "0.5"
home = "*"
sqlite = "*"
serde = { version = "1", features = ["derive"] }
serde_json = "1"
