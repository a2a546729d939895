[package]
name = "react_component"
version = "0.1.0"
edition = "2021"
publish = false

[dependencies]
js-sys = "0.3"
react-sys = "1.0.0-alpha.23"
wasm-bindgen = "0.2"
web-sys = { version = "0.3", features = ["Document", "Element", "Event", "Window"] }
