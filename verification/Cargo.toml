[package]
name = "render_loop"
version = "0.1.0"
edition = "2021"
publish = false

[dependencies]
crossbeam-channel = "0.5"
once_cell = "1"
winit = { version = "0.29", default-features = false, features = ["rwh_05", "x11"] }
raw-window-handle = "0.5"
metal = "0.27"
cocoa = "0.25"
core-graphics-types = "0.1"
foreign-types-shared = "0.3"
objc = "0.2"
glam = "*"
