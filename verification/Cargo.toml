[package]
name = "carreport"
version = "0.1.0"
edition = "2021"
publish = false

[dependencies]
console_error_panic_hook = "0.1"
gloo = "0.11"
lazy_static = "1"
parking_lot = "0.12"
reqwest = { version = "0.12", default-features = false, features = ["json", "multipart"] }
serde = { version = "1", features = ["derive"] }
tracing = "0.1"
tracing-wasm = "0.2"
web-sys = { version = "0.3", features = ["DataTransfer", "DragEvent", "HtmlInputElement"] }
yew = { version = "0.21", features = ["csr"] }
yew-hooks = "0.3"
yew-router = "0.18"

[dev-dependencies]
serde_json = "1"
