[package]
name = "font_kit"
version = "0.1.0"
edition = "2021"
publish = false

[dependencies]
byteorder = "1"
core-graphics = "0.17"
core-text = "13"
euclid = "0.19"
libc = "0.2"
lyon_path = "0.12"
memmap = "0.7"
