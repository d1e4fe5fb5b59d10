[package]
name = "jobber_export"
version = "0.1.0"
edition = "2021"
publish = false

[dependencies]
chrono = "=0.4.45"
gloo-console = "0.3"
gloo-net = "0.6"
js-sys = "0.3"
serde = { version = "1", features = ["derive"] }
serde_json = "=1.0.154"
serde_urlencoded = "=0.7.1"
wasm-bindgen = "0.2"
wasm-bindgen-futures = "0.4"
web-sys = { version = "0.3", features = ["Blob", "Url", "Window", "Document", "Element", "HtmlElement"] }
yew = { version = "0.21", features = ["csr"] }
yew-datepicker = "0.2.4"
yew-router = "0.18"
