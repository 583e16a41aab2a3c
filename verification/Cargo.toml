[package]
name = "dot_vox_amethyst"
version = "0.1.0"
edition = "2021"
publish = false

[dependencies]
derivative = "=1.0.4"
dot_vox = "=3.1.0"
glsl-layout = "=0.1.1"
log = "=0.4.34"

[dev-dependencies]
avow = "=0.2.0"
