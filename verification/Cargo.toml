[package]
name = "ruffle_dispatch"
version = "0.1.0"
edition = "2021"
publish = false

[dependencies]
gc-arena = "*"
tracing = "*"
tracing-subscriber = "*"
tracing-wasm = "*"
wasm-bindgen = "*"
wasm-bindgen-futures = "*"
js-sys = "*"
web-sys = { version = "*", features = ["Window", "Document", "Element", "HtmlElement", "HtmlCanvasElement", "Navigator"] }
