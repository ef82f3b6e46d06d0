[package]
name = "tetris_engine"
version = "0.1.0"
edition = "2021"
publish = false

[dependencies]
rand = "0.8"
yew = "0.19"
gloo = "0.8"
wasm-bindgen = "0.2"
web-sys = { version = "0.3", features = ["Document", "Element", "Event", "HtmlDocument", "HtmlInputElement", "KeyboardEvent", "Touch", "TouchEvent", "TouchList", "Window"] }
