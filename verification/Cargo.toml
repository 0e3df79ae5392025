[package]
name = "webatui"
version = "0.1.0"
edition = "2021"
publish = false

[dependencies]
ratatui = { version = "*", default-features = false }
yew = "*"
web-sys = { version = "*", features = [
    "console",
    "CssRule",
    "CssRuleList",
    "CssStyleSheet",
    "Document",
    "MouseEvent",
    "Screen",
    "StyleSheet",
    "StyleSheetList",
    "Touch",
    "TouchEvent",
    "TouchList",
    "WheelEvent",
    "Window",
] }
