[package]
name = "screen_capture"
version = "0.1.0"
edition = "2021"
publish = false

[dependencies]
iced = { version = "0.12", default-features = false }
iced_aw = { version = "0.9", default-features = false, features = ["tabs"] }
