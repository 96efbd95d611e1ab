[package]
name = "font_handles"
version = "0.1.0"
edition = "2021"
publish = false

[dependencies]
freetype-sys = "=0.23.0"
libc = "=0.2.191"
