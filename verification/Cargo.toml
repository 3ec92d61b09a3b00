[package]
name = "grafiek_wasm"
version = "0.1.0"
edition = "2021"
publish = false

[dependencies]
wgpu = "=0.20.1"
tweak_shader = "=0.3.3"
web-sys = { version = "=0.3.106", features = ["HtmlCanvasElement"] }
wasm-bindgen = "=0.2.129"
wasm-bindgen-futures = "=0.4.79"
futures-intrusive = "=0.5.0"
log = "=0.4.34"
console_log = "=1.1.0"
console_error_panic_hook = "=0.1.7"
