[package]
name = "rgx"
version = "0.1.0"
edition = "2021"
publish = false

[dependencies]
cgmath = "=0.17.0"
winit = "=0.18.1"
