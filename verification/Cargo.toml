[package]
name = "besim_gui"
version = "0.1.0"
edition = "2021"
publish = false

[dependencies]
yew = { version = "0.21", features = ["csr"] }
yew-router = "0.18"
yew_icons = { version = "0.8", features = ["BootstrapBattery", "BootstrapBatteryFull", "BootstrapArrowLeftRight", "BootstrapFire"] }
gloo-net = { version = "0.6", default-features = false, features = ["http", "json"] }
gloo-timers = { version = "0.3", features = ["futures"] }
js-sys = "0.3"
wasm-bindgen = "0.2"
wasm-bindgen-futures = "0.4"
web-sys = { version = "0.3", features = ["Window", "HtmlCanvasElement", "HtmlInputElement", "HtmlSelectElement", "EventTarget"] }
serde = { version = "1", features = ["derive"] }
serde_json = "1"
plotters = { version = "0.3", default-features = false, features = ["line_series"] }
plotters-canvas = "0.3"
console_error_panic_hook = "0.1"
console_log = "1"
log = "0.4"
