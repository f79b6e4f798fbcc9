[package]
name = "projectrigor"
version = "0.1.0"
edition = "2021"
publish = false

[dependencies]
glam = "0.29"
hecs = "0.10"
rapier3d = "0.22"
winit = "0.30"
clap = { version = "4", features = ["derive"] }
metal = "0.29"
cocoa = "0.26"
objc = "0.2"
core-graphics-types = "0.1"
raw-window-handle = "0.6"
