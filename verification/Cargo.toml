[package]
name = "gain_plugin"
version = "0.1.0"
edition = "2021"
publish = false

[dependencies]
vst = "0.2"
tuix = "*"
raw-window-handle = "0.3"
