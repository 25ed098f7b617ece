[package]
name = "dock_chrome"
version = "0.1.0"
edition = "2021"
publish = false

[dependencies]
egui = "*"
wasm-bindgen = "*"
web-sys = { version = "*", features = ["HtmlCanvasElement"] }
