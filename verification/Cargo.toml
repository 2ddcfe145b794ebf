[package]
name = "defenestrate"
version = "0.1.0"
edition = "2021"
publish = false

[dependencies]
console_error_panic_hook = "0.1"
js-sys = "0.3"
quicksilver = { version = "0.3", default-features = false, features = ["fonts"] }
stdweb = "0.4"
wasm-bindgen = "0.2"
