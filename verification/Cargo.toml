[package]
name = "heightmap_mesh"
version = "0.1.0"
edition = "2021"
publish = false

[dependencies]
clap = "2"
colour = "*"
image = { version = "*", default-features = false, features = ["png", "jpeg", "bmp", "gif", "tiff"] }
stl_io = "*"
