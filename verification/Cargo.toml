[package]
name = "egor"
version = "0.1.0"
edition = "2021"
publish = false

[dependencies]
glam = "*"
wasm-bindgen = "0.2"
web-sys = { version = "0.3", features = ["Window", "Document", "Element", "HtmlCanvasElement", "WebGl2RenderingContext", "WebGlRenderingContext"] }
