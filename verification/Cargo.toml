[package]
name = "image_sharpen_rs"
version = "0.1.0"
edition = "2021"
publish = false

[dependencies]
rustc_apfloat = "*"
image = "*"
clap = { version = "*", features = ["derive"] }
cudarc = "*"
ocl = "*"
