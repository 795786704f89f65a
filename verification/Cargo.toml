[package]
name = "ball_demo"
version = "0.1.0"
edition = "2021"
publish = false

[dependencies]
anyhow = "1"
bytemuck = { version = "1", features = ["derive"] }
cgmath = "0.18"
console_error_panic_hook = "0.1"
console_log = "1"
log = "0.4"
rapier3d = "*"
reqwest = { version = "*", default-features = false }
tobj = { version = "*", features = ["async"] }
wasm-bindgen = "0.2"
wasm-bindgen-futures = "0.4"
web-sys = { version = "0.3", features = ["Window", "Document", "Element", "HtmlCanvasElement", "Location", "DomRect"] }
wgpu = "*"
