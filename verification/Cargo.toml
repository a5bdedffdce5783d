[package]
name = "sport"
version = "0.1.0"
edition = "2021"
publish = false

[dependencies]
rand = "0.9"
slug = "0.1"
itertools = "0.14"
serde = { version = "1", features = ["derive"] }
serde_json = "1"
thiserror = "2"
web-sys = { version = "0.3", features = ["Window", "Document", "Element", "HtmlAudioElement", "HtmlMediaElement"] }
wasm-bindgen = "0.2"
wasm-bindgen-futures = "0.4"
js-sys = "0.3"
gloo = { version = "0.11", features = ["futures"] }
console_error_panic_hook = "0.1"
dioxus = { version = "0.6", features = ["web", "router"] }
