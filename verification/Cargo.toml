[package]
name = "overlay_lifecycle"
version = "0.1.0"
edition = "2021"
publish = false

[dependencies]
druid = "=0.6.0"
once_cell = "*"
wasm-bindgen = "*"
console_error_panic_hook = "*"
