[package]
name = "gamepad_events"
version = "0.1.0"
edition = "2021"
publish = false

[dependencies]
js-sys = "0.3"
stdweb = "0.4"
wasm-bindgen = "0.2"

[dependencies.web-sys]
version = "0.3"
features = [
    "Document",
    "Element",
    "Gamepad",
    "GamepadButton",
    "GamepadMappingType",
    "HtmlCanvasElement",
    "KeyboardEvent",
    "MouseEvent",
    "Navigator",
    "WheelEvent",
    "Window",
]
