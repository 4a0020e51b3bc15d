[package]
name = "podcast_ui"
version = "0.1.0"
edition = "2021"
publish = false

[dependencies]
yew = { version = "=0.21.0", features = ["csr"] }
yew-router = "=0.18.0"
yewdux = "=0.11.0"
wasm-bindgen = "=0.2.130"
wasm-bindgen-futures = "=0.4.80"
web-sys = { version = "=0.3.107", features = ["Window", "Document", "HtmlInputElement", "HtmlElement", "MouseEvent", "Node", "EventTarget", "Event", "console"] }
