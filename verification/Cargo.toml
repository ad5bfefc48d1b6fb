[package]
name = "web_input_bridge"
version = "0.1.0"
edition = "2021"
publish = false

[dependencies]
bevy = { version = "=0.17.3", default-features = false, features = ["std", "bevy_camera", "bevy_color", "bevy_log", "bevy_picking", "bevy_text", "bevy_ui", "bevy_ui_picking_backend", "bevy_window"] }
wasm-bindgen = "=0.2.129"
web-sys = { version = "=0.3.106", features = ["CompositionEvent", "Document", "Element", "EventTarget", "HtmlElement", "HtmlInputElement", "InputEvent", "KeyboardEvent", "Window"] }
