[package]
name = "notedeck_ios"
version = "0.1.0"
edition = "2021"
publish = false

[dependencies]
egui = { version = "=0.31.1", default-features = false }
egui-wgpu = { version = "=0.31.1", default-features = false }
egui-winit = { version = "=0.31.1", default-features = false, features = ["clipboard", "x11"] }
wgpu = "=24.0.5"
futures = "=0.3.34"
tracing = "=0.1.44"
tracing-subscriber = { version = "=0.3.23", features = ["env-filter"] }
swift-bridge = "=0.1.59"
