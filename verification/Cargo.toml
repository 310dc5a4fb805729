[package]
name = "counter_client"
version = "0.1.0"
edition = "2021"
publish = false

[dependencies]
sauron = "=0.50.6"
wasm-bindgen = "0.2"
wasm-bindgen-futures = "0.4"
log = "0.4"
console_log = "*"
console_error_panic_hook = "0.1"
