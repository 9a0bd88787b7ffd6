[package]
name = "nesemu"
version = "0.1.0"
edition = "2021"
publish = false

[dependencies]
crossterm = "0.27"
eframe = { version = "0.22", default-features = false, features = ["default_fonts", "glow"] }
egui = "0.22"
env_logger = "0.10"
log = "0.4"
ratatui = "0.23"
serde = { version = "1", features = ["derive"] }
wasm-bindgen = "0.2"
wasm-bindgen-futures = "0.4"
web-sys = { version = "0.3", features = ["MessageEvent", "Worker"] }
