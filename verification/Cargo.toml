[package]
name = "iroh-webrtc-transport"
version = "0.1.0"
edition = "2021"
publish = false

[dependencies]
js-sys = "0.3"
wasm-bindgen = "0.2"
serde = { version = "1", features = ["derive"] }
serde_json = "1"
serde-wasm-bindgen = "0.6"
thiserror = "2"
anyhow = "1"
