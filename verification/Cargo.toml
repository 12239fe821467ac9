[package]
name = "xframe"
version = "0.1.0"
edition = "2021"
publish = false

[dependencies]
ahash = "=0.8.12"
egui = { version = "=0.37.0", features = ["default_fonts", "persistence"] }
egui-wgpu = { version = "=0.37.0", default-features = false, features = ["winit"] }
egui-winit = { version = "=0.37.0", default-features = false, features = ["serde"] }
log = "=0.4.35"
pollster = "=0.4.0"
profiling = "=1.0.18"
raw-window-handle = "=0.6.2"
ron = "=0.12.3"
serde = "=1.0.229"
static_assertions = "=1.1.0"
winit = { version = "=0.30.13", default-features = false, features = ["rwh_06", "x11"] }
