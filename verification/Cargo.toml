[package]
name = "stereo_pipeline"
version = "0.1.0"
edition = "2021"
publish = false

[dependencies]
const_soft_float = "*"
gl = "=0.14.0"
openvr = "*"
sdl2 = "=0.38.0"
