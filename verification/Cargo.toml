[package]
name = "er_menus"
version = "0.1.0"
edition = "2021"
publish = false

[dependencies]
serde = { version = "1", features = ["derive"] }
serde_json = "1"
serde-xml-rs = "*"
tracing = "*"
tracing-subscriber = "*"
crash-handler = "*"
pelite = "*"
hudhook = "*"
windows = { version = "*", features = ["Win32_Foundation", "Win32_System_Memory", "Win32_System_SystemServices"] }
eldenring-util = "*"
pmod = "*"
