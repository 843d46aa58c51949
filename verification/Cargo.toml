[package]
name = "digit_code"
version = "0.1.0"
edition = "2021"
publish = false

[dependencies]
itertools = "*"
unicode-segmentation = "1"
rand = "0.8"
log = "0.4"
wasm-bindgen = "0.2"
web-sys = { version = "0.3", default-features = false, features = ["Window", "Document", "Element", "HtmlElement", "HtmlInputElement", "EventTarget", "Node", "KeyboardEvent", "InputEvent"] }
yew = "0.21"
yew-hooks = "0.3"
