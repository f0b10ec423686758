[package]
name = "ink_generator"
version = "0.1.0"
edition = "2021"
publish = false

[dependencies]
syn = { version = "2", features = ["full", "extra-traits"] }
quote = "1"
proc-macro2 = "1"
prettyplease = "0.2"
toml_edit = "0.21"
serde = { version = "1", features = ["derive"] }
serde_json = "1"
futures = "0.3"
wasm-bindgen = "0.2"
wasm-bindgen-futures = "0.4"
js-sys = "0.3"
web-sys = { version = "0.3", features = ["Window", "Storage", "Request", "RequestInit", "RequestMode", "Response", "console"] }
console_error_panic_hook = "0.1"
