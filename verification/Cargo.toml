[package]
name = "canva_test"
version = "0.1.0"
edition = "2021"
publish = false

[dependencies]
eframe = { version = "0.34.3", default-features = false, features = ["wgpu", "x11"] }
pollster = "0.4.0"
raw-window-handle = "0.6.2"
