[package]
name = "satoshi_settlers"
version = "0.1.0"
edition = "2021"
publish = false

[dependencies]
validator = { version = "=0.16.1", features = ["derive"] }
ulam = { version = "=0.6.0", default-features = false }
qrcode = { version = "=0.12.0", default-features = false, features = ["svg"] }
serde = { version = "=1.0.229", features = ["derive"] }
serde_json = "=1.0.154"
bevy = { version = "=0.9.1", default-features = false, features = ["bevy_asset", "bevy_core_pipeline", "bevy_render", "bevy_sprite", "bevy_text", "bevy_ui", "bevy_winit", "png", "x11"] }
bevy_egui = { version = "0.18", default-features = false }
egui_extras = { version = "0.20", features = ["svg"] }
async-channel = "=1.9.0"
reqwest = { version = "=0.11.27", default-features = false }
wasm-bindgen = "=0.2.130"
wasm-bindgen-futures = "=0.4.80"
web-sys = { version = "=0.3.72", features = ["Window", "Navigator", "Clipboard"] }
