[package]
name = "timeline"
version = "0.1.0"
edition = "2021"
publish = false

[dependencies]
gloo-console = "0.2"
gloo-storage = "0.2"
gloo-utils = "0.1"
rand = "0.8"
serde = { version = "1", features = ["derive"] }
strum = { version = "0.24", features = ["derive"] }
wasm-bindgen = "0.2"
web-sys = { version = "0.3", features = ["Document", "DragEvent", "Element", "Event", "EventTarget", "HtmlElement", "HtmlInputElement"] }
yew = { version = "0.20", features = ["csr"] }
