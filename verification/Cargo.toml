[package]
name = "bathrooms"
version = "0.1.0"
edition = "2021"
publish = false

[dependencies]
console_error_panic_hook = "=0.1.7"
console_log = "=1.1.0"
futures = "=0.3.34"
js-sys = "=0.3.106"
leptos = { version = "=0.4.10", features = ["csr"] }
log = "=0.4.34"
reqwasm = "=0.5.0"
serde = { version = "=1.0.229", features = ["derive"] }
serde_derive = "=1.0.229"
wasm-bindgen = "=0.2.129"
web-sys = { version = "=0.3.106", features = ["Coordinates", "Geolocation", "Navigator", "Position", "PositionError", "PositionOptions", "Window", "console"] }
