[package]
name = "mouse_script"
version = "0.1.0"
edition = "2021"
publish = false

[dependencies]
csv = "1"
enigo = "0.1"
