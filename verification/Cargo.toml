[package]
name = "plugin_canvas"
version = "0.1.0"
edition = "2021"
publish = false

[dependencies]
cursor-icon = "*"
uuid = { version = "*", features = ["v4"] }
raw-window-handle = "*"
keyboard-types = "*"
i-slint-core = "*"
web-sys = { version = "*", features = [
    "Window",
    "Document",
    "Element",
    "HtmlElement",
    "HtmlCanvasElement",
    "CssStyleDeclaration",
    "DomRect",
    "EventTarget",
    "KeyboardEvent",
    "MouseEvent",
    "PointerEvent",
    "WheelEvent",
    "DragEvent",
    "DataTransfer",
    "FileList",
    "File",
] }
