[package]
name = "rust64"
version = "0.1.0"
edition = "2021"
publish = false

[dependencies]
byteorder = "1"
rand = "0.8"
time = "0.3"
minifb = "*"
sdl2 = "*"
