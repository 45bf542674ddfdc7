[package]
name = "gfx_window_glutin"
version = "0.31.0"
edition = "2021"
publish = false

[dependencies]
gfx_core = "=0.9.2"
gfx_device_gl = "=0.16.2"
glutin = "=0.22.1"
