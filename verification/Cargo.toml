[package]
name = "friendly_span"
version = "0.1.0"
edition = "2021"
publish = false

[dependencies]
jiff = "=0.2.38"
serde = { version = "*", features = ["derive"] }
tsify = { version = "=0.4.5", features = ["js"] }
wasm-bindgen = "*"
