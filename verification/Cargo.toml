[package]
name = "monitor_dump"
version = "0.1.0"
edition = "2021"
publish = false

[dependencies]
winit = "*"
softbuffer = "*"
tracing-subscriber = { version = "*", features = ["env-filter"] }
