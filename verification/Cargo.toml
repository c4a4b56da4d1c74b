[package]
name = "wasm_validate"
version = "0.1.0"
edition = "2021"
publish = false

[dependencies]
wasmparser = "0.121"
wat = "*"
wasmprinter = "*"
serde = { version = "1", features = ["derive"] }
serde-wasm-bindgen = "0.6"
wasm-bindgen = "0.2"
js-sys = "0.3"
web-sys = { version = "0.3", features = ["console"] }
console_error_panic_hook = "0.1"
