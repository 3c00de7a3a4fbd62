[package]
name = "radiotap"
version = "0.1.0"
edition = "2021"
publish = false

[dependencies]
bitops = "*"
byteorder = "1"
display_derive = "*"
failure = "0.1"
