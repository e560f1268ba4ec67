[package]
name = "tile_runner"
version = "0.1.0"
edition = "2021"
publish = false

[dependencies]
js-sys = "0.3"
nalgebra = "0.33"
wasm-bindgen = "0.2"
web-sys = { version = "0.3", features = ["console", "CssStyleDeclaration", "Document", "Element", "EventTarget", "HtmlCanvasElement", "HtmlElement", "KeyboardEvent", "Node", "WebGlBuffer", "WebGlProgram", "WebGlRenderingContext", "WebGlShader", "WebGlUniformLocation", "Window"] }
