[package]
name = "capture_core"
version = "0.1.0"
edition = "2021"
publish = false

[dependencies]
fltk = "*"
serde = { version = "1", features = ["derive"] }
tracing = "0.1"
