[package]
name = "wl-crosshair"
version = "0.1.0"
edition = "2021"
publish = false

[dependencies]
image = "0.24"
tempfile = "3"
wayland-client = "0.30"
wayland-protocols = { version = "0.30", features = ["client"] }
wayland-protocols-wlr = { version = "0.1", features = ["client"] }
