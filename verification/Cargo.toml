[package]
name = "dynamic_portal"
version = "0.1.0"
edition = "2021"
publish = false

[dependencies]
leptos = { version = "*", features = ["csr"] }
web-sys = { version = "*", features = ["Document", "Element", "HtmlElement", "Node", "ShadowRoot", "ShadowRootInit", "ShadowRootMode", "Window"] }
wasm-bindgen = "*"
send_wrapper = "*"
