[package]
name = "viewer_logic"
version = "0.1.0"
edition = "2021"
publish = false

[dependencies]
ahash = "*"
egui = "*"
egui_commonmark = "*"
egui_plot = "*"
ehttp = { version = "*", default-features = false }
itertools = "*"
jiff = { version = "*", default-features = false, features = ["std"] }
parking_lot = "*"
serde = { version = "*", features = ["derive"] }
serde_json = "*"
smallvec = "1"
strum = "*"
strum_macros = "*"
unindent = "*"
web-time = "*"
