[package]
name = "touch_for_windows"
version = "0.1.0"
edition = "2021"
publish = false

[dependencies]
chrono = "0.4"
clap = { version = "4", features = ["derive"] }
dateparser = "0.2"
filetime = "0.2"
