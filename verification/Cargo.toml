[package]
name = "sg3"
version = "0.1.0"
edition = "2021"
publish = false

[dependencies]
byteorder = "1"
nix = { version = "*", features = ["ioctl"] }
