[package]
name = "moonwalk_macros"
version = "0.1.0"
edition = "2021"
publish = false

[dependencies]
global-hotkey = "*"
crossbeam-channel = "*"
winapi = { version = "0.3", features = ["winuser"] }
