[package]
name = "camframe"
version = "0.1.0"
edition = "2021"
publish = false

[dependencies]
image = "=0.25.10"
gphoto = "=0.1.2"
v4l = "=0.14.0"
