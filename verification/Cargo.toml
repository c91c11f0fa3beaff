[package]
name = "music_visualizer"
version = "0.1.0"
edition = "2021"
publish = false

[dependencies]
gl = "0.14"
glutin = "0.30"
glutin-winit = "0.3"
winit = "0.28"
raw-window-handle = "0.5"
