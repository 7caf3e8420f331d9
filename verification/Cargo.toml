[package]
name = "sandbox2d"
version = "0.1.0"
edition = "2021"
publish = false

[dependencies]
nphysics2d = "*"
ncollide2d = "*"
nalgebra = "*"
serde = "*"
serde_derive = "*"
serde_json = "*"
wasm-bindgen = "*"
web-sys = { version = "*", features = ["Window", "Document", "Element", "EventTarget", "Event", "KeyboardEvent", "HtmlCanvasElement", "CanvasRenderingContext2d", "console"] }
