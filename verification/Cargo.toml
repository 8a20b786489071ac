[package]
name = "freelook"
version = "0.1.0"
edition = "2021"
publish = false

[dependencies]
raylib = "5.5.1"
gl = "=0.14.0"
gl_loader = "=0.1.2"
