[package]
name = "rael_img"
version = "0.1.0"
edition = "2021"
publish = false

[dependencies]
image = "*"
rael = "*"
