[package]
name = "hesocial_frontend"
version = "0.1.0"
edition = "2021"
publish = false

[dependencies]
serde_json = "1"
serde = { version = "1", features = ["derive"] }
gloo-net = { version = "0.6", default-features = false, features = ["http", "json"] }
web-sys = { version = "0.3", features = ["Window", "Location", "Storage"] }
js-sys = "0.3"
wasm-bindgen = "0.2"
