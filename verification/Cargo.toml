[package]
name = "egui_window_winit"
version = "0.1.0"
edition = "2021"
publish = false

[dependencies]
winit = "0.28"
egui_backend = "*"
tracing = "0.1"
wasm-bindgen = "0.2"
web-sys = { version = "0.3", features = ["Window", "Document", "Element", "HtmlCanvasElement", "CssStyleDeclaration"] }
