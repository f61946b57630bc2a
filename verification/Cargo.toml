[package]
name = "flemish"
version = "0.1.0"
edition = "2021"
publish = false

[dependencies]
base64 = "0.22"
cairo-blur = "*"
cairo-rs = "*"
cascade = "1"
chrono = "0.4"
csv = "1"
fltk = "1"
fltk-calendar = "*"
fltk-theme = "*"
glib = "*"
image = { version = "0.25", default-features = false, features = ["jpeg"] }
json-tools = "1"
serde = { version = "1", features = ["derive"] }
